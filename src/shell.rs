//! Helpers for the command shell that drives the engine.
use vstd::prelude::*;

verus! {

/// The text that `str::trim` leaves of `s`.
pub uninterp spec fn trimmed(s: Seq<char>) -> Seq<char>;

/// Relies on `str::trim`: the text without its leading and trailing
/// whitespace, which depends on the characters alone.
#[verifier::external_body]
fn trim<'a>(s: &'a str) -> (r: &'a str)
    ensures
        r@ == trimmed(s@),
{
    s.trim()
}

/// The word at `loc` of a split command line, trimmed; empty past the last word.
pub fn inp<'a>(inputs: &'a Vec<&str>, loc: usize) -> (r: &'a str)
    ensures
        loc >= inputs@.len() ==> r@ == Seq::<char>::empty(),
        loc < inputs@.len() ==> r@ == trimmed(inputs@[loc as int]@),
{
    if loc >= inputs.len() {
        proof {
            reveal_strlit("");
        }
        ""
    } else {
        trim(inputs[loc])
    }
}

} // verus!
