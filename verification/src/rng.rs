//! The library's one source of randomness, behind a trusted wrapper.

use vstd::prelude::*;

verus! {

/// Relies on rand::random_range over an inclusive integer range: the draw
/// always lies within the given bounds. The call panics only on an empty
/// range, which the precondition rules out. Nothing else can be promised of
/// a random value.
#[verifier::external_body]
pub(crate) fn random_in_range(lo: i64, hi: i64) -> (r: i64)
    requires
        lo <= hi,
    ensures
        lo <= r <= hi,
{
    rand::random_range(lo..=hi)
}

} // verus!
