//! Comparisons on string slices.

use vstd::prelude::*;

verus! {

/// Whether two string slices hold the same characters.
///
/// Trusted: this is `==` on `str`, which std defines as equality of the two
/// slices' contents.
#[verifier::external_body]
pub(crate) fn str_eq(a: &str, b: &str) -> (r: bool)
    ensures
        r == (a@ == b@),
{
    a == b
}

/// Whether `s` begins with `prefix`.
///
/// Trusted: this is `str::starts_with` with a string slice as the pattern,
/// which std documents as true exactly when the pattern matches a prefix of
/// the slice.
#[verifier::external_body]
pub(crate) fn str_starts_with(s: &str, prefix: &str) -> (r: bool)
    ensures
        r == prefix@.is_prefix_of(s@),
{
    s.starts_with(prefix)
}

} // verus!
