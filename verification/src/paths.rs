//! File paths as text, and the two operations of `std::path` that staging a
//! source file needs.
//!
//! A path is held as a `String`, so each of its parts is text too. What the
//! standard library makes of a path is not restated here: each operation has
//! a name, and the contracts of this library are written over those names.
//! The names stand for the operations as the platform reads paths that the
//! library is built for.

use vstd::prelude::*;

verus! {

/// What `std::path::Path::file_stem` returns for a path: the file name
/// without its extension, if the path ends in a file name.
pub uninterp spec fn file_stem_of(path: Seq<char>) -> Option<Seq<char>>;

/// What `std::path::Path::join` returns: `path` adjoined to `base`.
pub uninterp spec fn joined_path(base: Seq<char>, path: Seq<char>) -> Seq<char>;

/// Calls `std::path::Path::file_stem` on the path. The contract names the
/// result and claims nothing else of it: a path made of valid text has a stem
/// made of valid text, so the conversion back to a `String` loses nothing.
#[verifier::external_body]
pub(crate) fn file_stem(path: &str) -> (stem: Option<String>)
    ensures
        stem is Some <==> file_stem_of(path@) is Some,
        stem matches Some(s) ==> s@ == file_stem_of(path@)->0,
{
    std::path::Path::new(path).file_stem().map(|stem| stem.to_string_lossy().into_owned())
}

/// Calls `std::path::Path::join`. The contract names the result.
#[verifier::external_body]
pub(crate) fn join(base: &str, path: &str) -> (whole: String)
    ensures
        whole@ == joined_path(base@, path@),
{
    std::path::Path::new(base).join(path).to_string_lossy().into_owned()
}

} // verus!
