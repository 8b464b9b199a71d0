//! The random source that names are drawn with and records are sampled with.
use vstd::prelude::*;

verus! {

#[verifier::external_type_specification]
#[verifier::external_body]
pub struct ExSmallRng(rand::rngs::SmallRng);

/// Relies on rand's `SeedableRng::from_entropy`: a generator seeded from the
/// operating system; rand panics only where the operating system cannot
/// supply randomness.
#[verifier::external_body]
pub(crate) fn entropy_rng() -> (r: rand::rngs::SmallRng) {
    <rand::rngs::SmallRng as rand::SeedableRng>::from_entropy()
}

/// Relies on rand's `Rng::gen_range` over `0..bound`: a value below `bound`;
/// it panics on an empty range, which `requires` excludes.
#[verifier::external_body]
pub(crate) fn random_below(rng: &mut rand::rngs::SmallRng, bound: usize) -> (r: usize)
    requires
        bound > 0,
    ensures
        r < bound,
{
    rand::Rng::gen_range(rng, 0..bound)
}

} // verus!
