//! Debug text of strings.

use vstd::prelude::*;

verus! {

/// The text that `{:?}` gives for a string of the given characters.
pub uninterp spec fn debug_quoted(text: Seq<char>) -> Seq<char>;

/// `format!("{:?}", text)` for a string slice, which writes it by std's
/// `Debug` for `str`: between double quotes, with escapes. Taken on trust:
/// that the result depends on the characters of `text` alone. What it is for
/// given characters is not stated.
#[verifier::external_body]
pub(crate) fn quote(text: &str) -> (quoted: String)
    ensures
        quoted@ == debug_quoted(text@),
{
    format!("{:?}", text)
}

} // verus!
