use rand::rngs::StdRng;
use rand::Rng;
use rand::SeedableRng;
use vstd::prelude::*;

verus! {

#[verifier::external_type_specification]
#[verifier::external_body]
pub struct ExStdRng(StdRng);

/// `StdRng::seed_from_u64`: a generator started from `seed`. Nothing is
/// claimed of the generator.
#[verifier::external_body]
pub(crate) fn seeded(seed: u64) -> StdRng {
    StdRng::seed_from_u64(seed)
}

/// `Rng::gen_range` over `0..=max`, a range that is never empty: the number
/// drawn is no larger than `max`. Which number it is, is not claimed.
#[verifier::external_body]
pub(crate) fn draw_up_to(rng: &mut StdRng, max: u32) -> (drawn: u32)
    ensures
        drawn <= max,
{
    rng.gen_range(0..=max)
}

} // verus!
