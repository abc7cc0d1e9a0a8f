//! Small string helpers shared by the outputs.

use vstd::prelude::*;

verus! {

/// What `str::trim` gives: the text without leading and trailing whitespace.
pub uninterp spec fn trimmed(s: Seq<char>) -> Seq<char>;

/// `String::push_str`: appends `tail` to `text`.
#[verifier::external_body]
pub(crate) fn push_text(text: &mut String, tail: &str)
    ensures
        final(text)@ == old(text)@ + tail@,
{
    text.push_str(tail);
}

/// `str::trim`: the slice without leading and trailing whitespace.
#[verifier::external_body]
pub(crate) fn trim_text(s: &str) -> (t: &str)
    ensures
        t@ == trimmed(s@),
{
    s.trim()
}

} // verus!
