//! Text helpers shared by the other modules: trimming, and the characters
//! of optional texts.

use vstd::prelude::*;

verus! {

/// Whether a character is white space in the sense of `char::is_whitespace`,
/// that is, whether it has the Unicode property `White_Space`.
pub uninterp spec fn is_whitespace(c: char) -> bool;

/// A text without its leading white space.
pub open spec fn without_leading_space(s: Seq<char>) -> Seq<char>
    decreases s.len(),
{
    if s.len() > 0 && is_whitespace(s[0]) {
        without_leading_space(s.drop_first())
    } else {
        s
    }
}

/// A text without its trailing white space.
pub open spec fn without_trailing_space(s: Seq<char>) -> Seq<char>
    decreases s.len(),
{
    if s.len() > 0 && is_whitespace(s.last()) {
        without_trailing_space(s.drop_last())
    } else {
        s
    }
}

/// A text without the white space at either end.
pub open spec fn trimmed(s: Seq<char>) -> Seq<char> {
    without_trailing_space(without_leading_space(s))
}

/// Whether a text holds nothing but white space.
pub open spec fn is_blank(s: Seq<char>) -> bool {
    trimmed(s).len() == 0
}

/// The characters of an optional text.
pub open spec fn text_of(text: Option<String>) -> Option<Seq<char>> {
    match text {
        Some(s) => Some(s@),
        None => None,
    }
}

/// The characters of an optional text that was asked for, or of the message
/// that came in its place.
pub open spec fn fetched_view(fetched: Result<Option<String>, String>) -> Result<
    Option<Seq<char>>,
    Seq<char>,
> {
    match fetched {
        Ok(found) => Ok(text_of(found)),
        Err(reason) => Err(reason@),
    }
}

/// The characters of the message with which a write failed, if it did.
pub open spec fn written_view(written: Result<(), String>) -> Result<(), Seq<char>> {
    match written {
        Ok(()) => Ok(()),
        Err(reason) => Err(reason@),
    }
}

/// Calls `str::trim` and copies what is left. Trusted: the result is the
/// argument with the leading and the trailing run of white-space characters
/// removed, as the standard library documents for `trim`, so that what is
/// left neither starts nor ends with white space.
#[verifier::external_body]
pub(crate) fn trim_text(s: &str) -> (r: String)
    ensures
        r@ == trimmed(s@),
        r@.len() > 0 ==> !is_whitespace(r@.first()) && !is_whitespace(r@.last()),
{
    s.trim().to_string()
}

} // verus!
