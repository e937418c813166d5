//! Text normalization used by command matching and wake-phrase checks.
//!
//! Lower-casing and trimming are delegated to the standard library; their
//! results are named by uninterpreted spec functions, and everything the
//! library decides from them is verified against those names.

use vstd::prelude::*;

verus! {

/// The characters of a string after Unicode lower-casing, as
/// `str::to_lowercase` computes it.  The result depends on the characters
/// alone.
pub uninterp spec fn lower_of(s: Seq<char>) -> Seq<char>;

/// The characters of a string after trimming leading and trailing
/// whitespace, as `str::trim` computes it.  The result depends on the
/// characters alone.
pub uninterp spec fn trim_of(s: Seq<char>) -> Seq<char>;

/// `needle` occurs contiguously somewhere inside `hay`.
pub open spec fn is_substring_of(hay: Seq<char>, needle: Seq<char>) -> bool {
    exists|i: int|
        0 <= i && i + needle.len() <= hay.len() && #[trigger] hay.subrange(i, i + needle.len())
            == needle
}

/// Relies on `str::to_lowercase`: the lowercase equivalent of the string,
/// a function of its characters alone.
#[verifier::external_body]
pub(crate) fn lowercase(s: &str) -> (r: String)
    ensures
        r@ == lower_of(s@),
{
    s.to_lowercase()
}

/// Relies on `str::trim`: the string with leading and trailing whitespace
/// removed; the result is a subslice, so it is never longer than the input.
#[verifier::external_body]
pub(crate) fn trimmed(s: &str) -> (r: &str)
    ensures
        r@ == trim_of(s@),
        r@.len() <= s@.len(),
{
    s.trim()
}

/// Relies on `str::contains`: whether the pattern matches a sub-slice of
/// the string.
#[verifier::external_body]
pub(crate) fn contains_substring(hay: &str, needle: &str) -> (r: bool)
    ensures
        r == is_substring_of(hay@, needle@),
{
    hay.contains(needle)
}

} // verus!
