//! The crate's only source of randomness: spawn positions and headings are
//! drawn here.

use vstd::prelude::*;

verus! {

/// Relies on rand::Rng::gen_range over `0..bound`: the sample is drawn
/// uniformly from that half-open range, so it is below `bound`; the call
/// panics on an empty range, which the precondition rules out.
#[verifier::external_body]
pub(crate) fn random_below(bound: u64) -> (r: u64)
    requires
        bound > 0,
    ensures
        r < bound,
{
    rand::Rng::gen_range(&mut rand::thread_rng(), 0..bound)
}

} // verus!
