//! Comparisons on string slices that the rest of the crate needs.

use vstd::prelude::*;

verus! {

/// `suffix` stands at the end of `text`.
pub open spec fn ends_with_text(text: Seq<char>, suffix: Seq<char>) -> bool {
    suffix.len() <= text.len() && text.subrange(text.len() - suffix.len(), text.len() as int)
        == suffix
}

/// `==` of std on two string slices: true exactly when they hold the same
/// characters.
#[verifier::external_body]
pub(crate) fn same_text(a: &str, b: &str) -> (same: bool)
    ensures
        same == (a@ == b@),
{
    a == b
}

/// `str::ends_with` of std with a string pattern: true exactly when the text
/// ends in the pattern's characters.
#[verifier::external_body]
pub(crate) fn has_suffix(text: &str, suffix: &str) -> (found: bool)
    ensures
        found == ends_with_text(text@, suffix@),
{
    text.ends_with(suffix)
}

} // verus!
