//! Randomness for the stochastic parts of the simulation, drawn from the
//! process-wide generator of the `rand` crate. Two calls on the same input
//! may differ; every caller states only what holds of all outcomes.

use vstd::prelude::*;

verus! {

/// Relies on `rand::random_range` over `0..bound`: the sampled value lies
/// in the given range, so it is below `bound`; the range is nonempty, so
/// the call cannot panic.
#[verifier::external_body]
pub(crate) fn random_below(bound: u64) -> (r: u64)
    requires
        bound >= 1,
    ensures
        r < bound,
{
    rand::random_range(0u64..bound)
}

} // verus!
