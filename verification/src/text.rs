//! Text as sequences of characters: the views of lists of strings, and
//! joining words into one line.

use vstd::prelude::*;
use vstd::string::StringExecFns;

verus! {

/// The views of the items of a sequence, in order.
pub open spec fn views<T: View>(items: Seq<T>) -> Seq<T::V> {
    items.map_values(|item: T| item@)
}

/// The view of an optional item.
pub open spec fn option_view<T: View>(item: Option<T>) -> Option<T::V> {
    match item {
        Some(t) => Some(t@),
        None => None,
    }
}

/// The words of a command line with one space between neighbours.
pub open spec fn joined(words: Seq<Seq<char>>) -> Seq<char>
    decreases words.len(),
{
    if words.len() == 0 {
        Seq::empty()
    } else if words.len() == 1 {
        words[0]
    } else {
        joined(words.drop_last()) + seq![' '] + words.last()
    }
}

/// An owned copy of a string slice.
pub fn owned(text: &str) -> (copy: String)
    ensures
        copy@ == text@,
{
    text.to_owned()
}

/// An owned copy of an optional string slice.
pub fn owned_option(text: Option<&str>) -> (copy: Option<String>)
    ensures
        option_view(copy) == option_view(text),
{
    match text {
        Some(t) => Some(owned(t)),
        None => None,
    }
}

/// Two pieces of text, one after the other.
pub fn appended(head: &str, tail: &str) -> (whole: String)
    ensures
        whole@ == head@ + tail@,
{
    let mut whole = owned(head);
    whole.append(tail);
    whole
}

/// A copy of a list of strings.
pub fn clone_words(words: &Vec<String>) -> (copy: Vec<String>)
    ensures
        views(copy@) == views(words@),
{
    let mut copy: Vec<String> = Vec::new();
    let mut i: usize = 0;
    while i < words.len()
        invariant
            i <= words.len(),
            copy@.len() == i,
            forall|j: int| 0 <= j < i ==> copy@[j]@ == #[trigger] words@[j]@,
        decreases words.len() - i,
    {
        copy.push(words[i].clone());
        i += 1;
    }
    assert(views(copy@) =~= views(words@));
    copy
}

/// Joins the words of a command into one line, as it is shown in an error.
pub fn join_words(words: &Vec<String>) -> (line: String)
    ensures
        line@ == joined(views(words@)),
{
    let mut line = String::new();
    let mut i: usize = 0;
    while i < words.len()
        invariant
            i <= words.len(),
            line@ == joined(views(words@).take(i as int)),
        decreases words.len() - i,
    {
        let ghost before = views(words@).take(i as int);
        let ghost after = views(words@).take(i + 1);
        assert(after.drop_last() == before);
        assert(after.last() == words@[i as int]@);
        if i > 0 {
            line.append(" ");
            proof {
                reveal_strlit(" ");
                assert(" "@ == seq![' ']);
            }
        }
        line.append(words[i].as_str());
        i += 1;
    }
    assert(views(words@).take(words.len() as int) == views(words@));
    line
}

} // verus!
