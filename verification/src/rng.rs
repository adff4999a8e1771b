use vstd::prelude::*;
use rand::Rng;
use rand::rngs::SmallRng;

verus! {

/// Small, per-worker random number generator from the rand crate.
/// Opaque here: nothing is assumed about the values it produces
/// beyond what each sampling wrapper states.
#[verifier::external_type_specification]
#[verifier::external_body]
pub struct ExSmallRng(SmallRng);

/// Relies on rand's `Rng::random_range` over an inclusive integer
/// range: the sampled value lies within the range. The call panics
/// only on an empty range, which the precondition rules out.
#[verifier::external_body]
pub(crate) fn rng_range(rng: &mut SmallRng, lo: u64, hi: u64) -> (r: u64)
    requires
        lo <= hi,
    ensures
        lo <= r <= hi,
{
    rng.random_range(lo..=hi)
}

} // verus!
