use vstd::prelude::*;

verus! {

#[verifier::external_type_specification]
#[verifier::external_body]
pub struct ExStdRng(rand::rngs::StdRng);

/// Relies on rand's `SeedableRng::seed_from_u64`: builds a generator whose
/// whole stream is determined by the given seed, so that spawning is
/// reproducible.
#[verifier::external_body]
pub fn seeded_rng(seed: u64) -> (rng: rand::rngs::StdRng) {
    <rand::rngs::StdRng as rand::SeedableRng>::seed_from_u64(seed)
}

/// Relies on rand's `Rng::gen_range`: draws a value uniformly from the
/// half-open range `lo..hi`. It panics only on an empty range, which the
/// precondition rules out; nothing but the bounds can be promised of the
/// drawn value.
#[verifier::external_body]
pub fn rng_range(rng: &mut rand::rngs::StdRng, lo: u64, hi: u64) -> (r: u64)
    requires
        lo < hi,
    ensures
        lo <= r < hi,
{
    rand::Rng::gen_range(rng, lo..hi)
}

} // verus!
