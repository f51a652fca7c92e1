//! Text primitives: substring search, case folding and display-width truncation.
use unicode_truncate::UnicodeTruncateStr;
use vstd::prelude::*;

verus! {

/// `p` occurs in `s` as a contiguous run of characters.
pub open spec fn is_substring(p: Seq<char>, s: Seq<char>) -> bool {
    exists|i: int| 0 <= i && i + p.len() <= s.len() && #[trigger] s.subrange(i, i + p.len()) == p
}

/// What `str::to_lowercase` gives for a string: a function of its characters alone.
pub uninterp spec fn lower_of(s: Seq<char>) -> Seq<char>;

/// What `unicode_truncate` keeps of a string for a given display width.
pub uninterp spec fn truncated_to_width(s: Seq<char>, width: usize) -> Seq<char>;

/// Relies on `str::contains` with a `&str` pattern: true exactly when the
/// pattern occurs in the string.
#[verifier::external_body]
pub(crate) fn str_contains(s: &str, p: &str) -> (r: bool)
    ensures
        r == is_substring(p@, s@),
{
    s.contains(p)
}

/// Relies on `str::to_lowercase`: the result depends on the characters alone.
#[verifier::external_body]
pub(crate) fn lowercase(s: &str) -> (r: String)
    ensures
        r@ == lower_of(s@),
{
    s.to_lowercase()
}

/// Relies on `UnicodeTruncateStr::unicode_truncate` of unicode-truncate: the
/// kept text is a prefix of the input, cut at a character boundary.
#[verifier::external_body]
pub(crate) fn truncate_to_width(s: &str, width: usize) -> (r: String)
    ensures
        r@ == truncated_to_width(s@, width),
        r@.len() <= s@.len(),
        r@ == s@.subrange(0, r@.len() as int),
{
    s.unicode_truncate(width).0.to_owned()
}

} // verus!
