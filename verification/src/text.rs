//! Text comparison used when matching operator names.

use vstd::prelude::*;

verus! {

/// Compares two string slices by their characters.
///
/// Trusted: calls `<str as PartialEq>::eq`, which std documents as comparing
/// the two slices' contents; the contract claims exactly that.
#[verifier::external_body]
pub(crate) fn str_equal(a: &str, b: &str) -> (r: bool)
    ensures
        r == (a@ == b@),
{
    a == b
}

} // verus!
