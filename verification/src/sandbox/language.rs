//! The language profile registry: what each supported language needs to be
//! compiled and run inside the runtime image.

use vstd::prelude::*;

verus! {

/// A language that the runtime image can execute.
#[derive(Clone, Copy, Debug, PartialEq, Eq, Structural)]
pub enum Language {
    Python,
    Java,
    JavaScript,
}

/// The extension of a source file, without the dot.
pub open spec fn source_extension(lang: Language) -> Seq<char> {
    match lang {
        Language::Python => "py"@,
        Language::Java => "java"@,
        Language::JavaScript => "js"@,
    }
}

/// The extension of the file that the runner is given. An interpreted
/// language runs its source file; a compiled class is named without one.
pub open spec fn compiled_extension(lang: Language) -> Seq<char> {
    match lang {
        Language::Python => "py"@,
        Language::Java => ""@,
        Language::JavaScript => "js"@,
    }
}

/// The compiler of a language that is compiled ahead of time.
pub open spec fn compiler(lang: Language) -> Option<Seq<char>> {
    match lang {
        Language::Python => None,
        Language::Java => Some("javac"@),
        Language::JavaScript => None,
    }
}

/// The program that runs the compiled or interpreted file.
pub open spec fn runner(lang: Language) -> Seq<char> {
    match lang {
        Language::Python => "python"@,
        Language::Java => "java"@,
        Language::JavaScript => "node"@,
    }
}

/// A language is interpreted when its runner takes the source file itself.
pub open spec fn is_interpreted(lang: Language) -> bool {
    compiler(lang) is None
}

pub fn get_source_extension(lang: Language) -> (ext: &'static str)
    ensures
        ext@ == source_extension(lang),
{
    match lang {
        Language::Python => "py",
        Language::Java => "java",
        Language::JavaScript => "js",
    }
}

pub fn get_compiled_extension(lang: Language) -> (ext: &'static str)
    ensures
        ext@ == compiled_extension(lang),
{
    match lang {
        Language::Python => "py",
        Language::Java => "",
        Language::JavaScript => "js",
    }
}

pub fn get_compiler(lang: Language) -> (command: Option<&'static str>)
    ensures
        command is Some <==> compiler(lang) is Some,
        command matches Some(c) ==> c@ == compiler(lang)->0,
{
    match lang {
        Language::Python => None,
        Language::Java => Some("javac"),
        Language::JavaScript => None,
    }
}

pub fn get_runner(lang: Language) -> (command: &'static str)
    ensures
        command@ == runner(lang),
{
    match lang {
        Language::Python => "python",
        Language::Java => "java",
        Language::JavaScript => "node",
    }
}

/// Every language has a source extension and a runner, and an interpreted
/// language runs the very file it was given.
pub proof fn lemma_profile_complete(lang: Language)
    ensures
        source_extension(lang).len() > 0,
        runner(lang).len() > 0,
        compiler(lang) matches Some(c) ==> c.len() > 0,
        is_interpreted(lang) ==> compiled_extension(lang) == source_extension(lang),
{
    reveal_strlit("py");
    reveal_strlit("java");
    reveal_strlit("js");
    reveal_strlit("python");
    reveal_strlit("node");
    reveal_strlit("javac");
}

} // verus!
