//! The one source of randomness: nannou's thread-local generator.

use vstd::prelude::*;

verus! {

/// Relies on nannou::rand::random_range: for `lo < hi` it calls
/// `thread_rng().gen_range(lo..hi)`, which yields a value in `[lo, hi)`.
#[verifier::external_body]
pub(crate) fn random_between(lo: i64, hi: i64) -> (r: i64)
    requires
        lo < hi,
    ensures
        lo <= r < hi,
{
    nannou::rand::random_range(lo, hi)
}

} // verus!
