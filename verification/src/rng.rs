//! Randomness for the synthesizer: a seedable generator behind trusted
//! wrappers, and a hook for the noise-magnitude distribution.
//!
//! Every wrapper states only what holds of every outcome (a range bound);
//! nothing is assumed about which value comes back.

use vstd::prelude::*;

verus! {

#[verifier::external_type_specification]
#[verifier::external_body]
pub struct ExStdRng(rand::rngs::StdRng);

/// Relies on rand's `StdRng::from_entropy`: a generator seeded from the
/// operating system's entropy source. Nothing is promised of its draws.
#[verifier::external_body]
pub fn rng_from_entropy() -> rand::rngs::StdRng {
    <rand::rngs::StdRng as rand::SeedableRng>::from_entropy()
}

/// Relies on rand's `SeedableRng::seed_from_u64`: a generator whose draw
/// sequence is a fixed function of the seed within one build of the crate.
#[verifier::external_body]
pub fn rng_from_seed(seed: u64) -> rand::rngs::StdRng {
    <rand::rngs::StdRng as rand::SeedableRng>::seed_from_u64(seed)
}

/// Relies on rand's `Rng::gen_range` on `lo..hi`: returns a value of the
/// half-open range, and panics on an empty range (excluded by `requires`).
#[verifier::external_body]
pub fn rng_range(rng: &mut rand::rngs::StdRng, lo: u64, hi: u64) -> (r: u64)
    requires
        lo < hi,
    ensures
        lo <= r < hi,
{
    rand::Rng::gen_range(rng, lo..hi)
}

/// Relies on rand's `Rng::gen_ratio`: returns true with probability
/// `num/den`, and panics when `den == 0` or `num > den` (excluded by
/// `requires`). Nothing is promised of the outcome.
#[verifier::external_body]
pub fn rng_ratio(rng: &mut rand::rngs::StdRng, num: u32, den: u32) -> bool
    requires
        0 < den,
        num <= den,
{
    rand::Rng::gen_ratio(rng, num, den)
}

/// Magnitude of the noise floor added to synthetic peaks.
///
/// The reference noise model is `|Normal(0, scale)|`, which only a
/// floating-point distribution can draw; the process around the library
/// supplies it through this hook. Nothing is assumed of the value returned:
/// the synthesizer clamps it before use.
pub trait NoiseModel {
    /// Draw one non-negative noise magnitude at the given scale, consuming
    /// randomness from `rng`.
    fn sample_abs(&mut self, rng: &mut rand::rngs::StdRng, scale: u64) -> u64;
}

} // verus!
