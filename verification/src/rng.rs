//! The pseudo-random source behind every spawn and choice operation.
//!
//! The game threads a concrete `rand::rngs::SmallRng` through each
//! operation that needs randomness.  Nothing is assumed about the
//! distribution of the samples: every contract downstream holds for
//! every outcome, and only the range of a sample is relied on here.

use vstd::prelude::*;
use rand::Rng;

verus! {

#[verifier::external_type_specification]
#[verifier::external_body]
pub struct ExSmallRng(rand::rngs::SmallRng);

/// Relies on rand's `Rng::gen_range` over `0..n`: a sample from a
/// non-empty half-open range lies within it.
#[verifier::external_body]
pub(crate) fn sample_below(rng: &mut rand::rngs::SmallRng, n: u32) -> (r: u32)
    requires
        n >= 1,
    ensures
        r < n,
{
    rng.gen_range(0..n)
}

} // verus!
