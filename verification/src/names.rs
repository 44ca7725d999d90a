//! Streamer names: case-insensitive comparison and lookup.

use vstd::prelude::*;

verus! {

/// What `str::to_lowercase` returns for a string (the lowercase mapping of
/// the Unicode standard, applied character by character with context).
pub uninterp spec fn lowercase(s: Seq<char>) -> Seq<char>;

/// Calls `str::to_lowercase`. Trusted: its result is the named lowercase
/// form of its argument; nothing more is claimed of it.
#[verifier::external_body]
pub(crate) fn to_lowercase(s: &str) -> (r: String)
    ensures
        r@ == lowercase(s@),
{
    s.to_lowercase()
}

/// Two names denote the same streamer when their lowercase forms agree.
pub open spec fn same_streamer(a: Seq<char>, b: Seq<char>) -> bool {
    lowercase(a) == lowercase(b)
}

/// The names held by a list of strings.
pub open spec fn names_of(list: Seq<String>) -> Seq<Seq<char>> {
    list.map_values(|s: String| s@)
}

/// Some entry of `names` denotes the same streamer as `name`.
pub open spec fn has_streamer(names: Seq<Seq<char>>, name: Seq<char>) -> bool {
    exists|i: int| 0 <= i < names.len() && same_streamer(#[trigger] names[i], name)
}

/// `i` is the first index of `names` that denotes the same streamer as `name`.
pub open spec fn is_first_match(names: Seq<Seq<char>>, name: Seq<char>, i: int) -> bool {
    &&& 0 <= i < names.len()
    &&& same_streamer(names[i], name)
    &&& forall|j: int| 0 <= j < i ==> !same_streamer(#[trigger] names[j], name)
}

/// Whether `a` and `b` name the same streamer, ignoring case.
pub fn same_streamer_name(a: &str, b: &str) -> (r: bool)
    ensures
        r == same_streamer(a@, b@),
{
    let la = to_lowercase(a);
    let lb = to_lowercase(b);
    la == lb
}

/// The index of the first entry of `list` that names the same streamer as
/// `name`, ignoring case; `None` when there is none.
pub fn position_of(list: &Vec<String>, name: &str) -> (r: Option<usize>)
    ensures
        match r {
            Some(i) => is_first_match(names_of(list@), name@, i as int),
            None => !has_streamer(names_of(list@), name@),
        },
{
    let mut i: usize = 0;
    while i < list.len()
        invariant
            i <= list.len(),
            forall|j: int| 0 <= j < i ==> !same_streamer(#[trigger] names_of(list@)[j], name@),
        decreases list.len() - i,
    {
        if same_streamer_name(list[i].as_str(), name) {
            return Some(i);
        }
        i = i + 1;
    }
    None
}

/// Whether some entry of `list` names the same streamer as `name`, ignoring case.
pub fn contains_streamer(list: &Vec<String>, name: &str) -> (r: bool)
    ensures
        r == has_streamer(names_of(list@), name@),
{
    match position_of(list, name) {
        Some(_) => true,
        None => false,
    }
}

} // verus!
