//! Names matched approximately: a query is held against the names of the
//! candidates, and the matcher picks the candidate that it judges closest.

use vstd::prelude::*;
use vstd::utf8::is_ascii_chars;

verus! {

/// The texts of `names`, in their order.
pub open spec fn name_texts(names: Seq<&str>) -> Seq<Seq<char>> {
    Seq::new(names.len(), |i: int| names[i]@)
}

/// Whether every one of `names` is made of ASCII characters alone.
pub open spec fn all_ascii(names: Seq<Seq<char>>) -> bool {
    forall|i: int| 0 <= i < names.len() ==> is_ascii_chars(#[trigger] names[i])
}

/// The position, among `names`, of the candidate that `fuzzy_match` picks
/// for `needle`, or `None` where it picks none. It compares by the
/// Sorensen-Dice coefficient of the two texts and breaks ties by their
/// edit distance.
pub uninterp spec fn fuzzy_choice(needle: Seq<char>, names: Seq<Seq<char>>) -> Option<usize>;

/// Calls `fuzzy_match::fuzzy_match` with each name paired with its
/// position.
///
/// Believed of it: what it returns depends on `needle` and on the names in
/// their order, and on nothing else; and what it returns is the item that
/// was paired with one of the names, here a position among them. It
/// panics on an empty list, and its tie-break indexes characters by byte
/// lengths, so it is called on ASCII text only.
#[verifier::external_body]
fn fuzzy_match_position(needle: &str, names: &Vec<&str>) -> (choice: Option<usize>)
    requires
        names@.len() > 0,
        is_ascii_chars(needle@),
        all_ascii(name_texts(names@)),
    ensures
        choice == fuzzy_choice(needle@, name_texts(names@)),
        choice matches Some(i) ==> i < names@.len(),
{
    fuzzy_match::fuzzy_match(needle, names.iter().enumerate().map(|(i, name)| (*name, i)))
}

/// Whether the matcher is asked at all: there is a candidate, and the
/// query and every name are ASCII text.
pub open spec fn consulted(needle: Seq<char>, names: Seq<Seq<char>>) -> bool {
    names.len() > 0 && is_ascii_chars(needle) && all_ascii(names)
}

/// The candidate that is picked for `needle`: the matcher's choice where
/// it is asked, none where it is not.
pub open spec fn spec_fuzzy_pick(needle: Seq<char>, names: Seq<Seq<char>>) -> Option<usize> {
    if consulted(needle, names) {
        fuzzy_choice(needle, names)
    } else {
        None
    }
}

/// Whether every one of `names` is ASCII text.
pub fn names_are_ascii(names: &Vec<&str>) -> (b: bool)
    ensures
        b == all_ascii(name_texts(names@)),
{
    let mut i: usize = 0;
    while i < names.len()
        invariant
            i <= names.len(),
            forall|j: int| 0 <= j < i ==> is_ascii_chars(#[trigger] name_texts(names@)[j]),
        decreases names.len() - i,
    {
        if !names[i].is_ascii() {
            assert(!is_ascii_chars(name_texts(names@)[i as int]));
            return false;
        }
        i += 1;
    }
    true
}

/// Picks, among `names`, the candidate closest to `needle`, and returns
/// its position. Returns `None` where there is no candidate, where the
/// query or a name holds a character outside ASCII, and where the matcher
/// finds no candidate close enough or cannot decide between several.
pub fn fuzzy_pick(needle: &str, names: &Vec<&str>) -> (choice: Option<usize>)
    ensures
        choice == spec_fuzzy_pick(needle@, name_texts(names@)),
        choice matches Some(i) ==> i < names@.len(),
{
    if names.len() == 0 || !needle.is_ascii() || !names_are_ascii(names) {
        None
    } else {
        fuzzy_match_position(needle, names)
    }
}

} // verus!
