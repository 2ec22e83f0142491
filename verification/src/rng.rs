//! Randomness for the ambient animations.
//!
//! Nothing is assumed about the distribution: the engine's contracts hold for
//! every outcome, so each wrapper states only what the `rand` crate's
//! documentation plainly promises.

use rand::Rng;
use vstd::prelude::*;

verus! {

/// Relies on `rand::random::<usize>`. Nothing is promised of the value.
#[verifier::external_body]
pub(crate) fn random_usize() -> usize {
    rand::random::<usize>()
}

/// Relies on `rand::Rng::gen_range` over a half-open range: the sample lies
/// within the range. It panics only on an empty range, which the
/// precondition rules out.
#[verifier::external_body]
pub(crate) fn random_range_usize(lo: usize, hi: usize) -> (r: usize)
    requires
        lo < hi,
    ensures
        lo <= r < hi,
{
    rand::thread_rng().gen_range(lo..hi)
}

} // verus!
