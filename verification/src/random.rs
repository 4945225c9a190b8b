//! Coin flips from the `rand` crate.

use rand::rngs::StdRng;
use rand::Rng;
use rand::SeedableRng;
use vstd::prelude::*;

verus! {

/// The generator of `rand` that a seed starts. What it holds is not modelled.
#[verifier::external_type_specification]
#[verifier::external_body]
pub struct ExStdRng(StdRng);

/// Calls `StdRng::seed_from_u64` of `rand`, which makes a generator from a 64-bit seed.
/// Nothing is claimed of the generator.
#[verifier::external_body]
pub(crate) fn seeded_generator(seed: u64) -> StdRng {
    StdRng::seed_from_u64(seed)
}

/// Calls `Rng::gen` of `rand` for a `bool` on a seeded generator, which advances it.
/// Nothing is claimed of the flip or of the generator afterwards.
#[verifier::external_body]
pub(crate) fn seeded_flip(generator: &mut StdRng) -> bool {
    generator.gen()
}

/// Calls `rand::random` for a `bool`, which draws from the thread's own generator.
/// Nothing is claimed of the flip. `rand` panics where the system gives it no entropy to
/// start that generator with.
#[verifier::external_body]
pub(crate) fn ambient_flip() -> bool {
    rand::random()
}

/// The next flip: from the seeded generator where there is one, else from the thread's.
pub(crate) fn next_flip(generator: &mut Option<StdRng>) -> (flip: bool)
    ensures
        final(generator).is_some() == old(generator).is_some(),
{
    match generator {
        Some(seeded) => seeded_flip(seeded),
        None => ambient_flip(),
    }
}

} // verus!
