//! The seeded pseudorandom generator behind map generation.
//!
//! The generator is `rand_xoshiro`'s xoshiro256++ and the draws are `rand`'s
//! uniform integer draws. Neither algorithm is restated here: what a draw
//! returns is a named function of the generator's state and of the range, and
//! the contracts below say no more of it than the range that `rand` documents.

use rand_xoshiro::Xoshiro256PlusPlus;
use vstd::prelude::*;

verus! {

#[verifier::external_type_specification]
#[verifier::external_body]
pub struct ExXoshiro256PlusPlus(Xoshiro256PlusPlus);

/// The four state words of a generator.
pub uninterp spec fn generator_state(rng: Xoshiro256PlusPlus) -> Seq<u64>;

/// The state that `Xoshiro256PlusPlus::seed_from_u64` expands `seed` to.
pub uninterp spec fn seeded_state(seed: u64) -> Seq<u64>;

/// What `Rng::random_range(low..high)` does to a generator in state `state`:
/// the value drawn, and the state in which it leaves the generator.
pub uninterp spec fn range_draw(state: Seq<u64>, low: int, high: int) -> (int, Seq<u64>);

/// Calls `Xoshiro256PlusPlus::seed_from_u64`. The state of the new generator
/// is a function of the seed alone.
#[verifier::external_body]
pub(crate) fn seeded_generator(seed: u64) -> (rng: Xoshiro256PlusPlus)
    ensures
        generator_state(rng) == seeded_state(seed),
{
    <Xoshiro256PlusPlus as rand::SeedableRng>::seed_from_u64(seed)
}

/// Calls `Rng::random_range` on the half-open range `low..high`, which `rand`
/// documents to return a value of the range and to panic on an empty one.
/// Value and next state are functions of the state before and of the bounds.
#[verifier::external_body]
pub(crate) fn draw_range(rng: &mut Xoshiro256PlusPlus, low: i32, high: i32) -> (value: i32)
    requires
        low < high,
    ensures
        low <= value < high,
        value == range_draw(generator_state(*old(rng)), low as int, high as int).0,
        generator_state(*final(rng)) == range_draw(
            generator_state(*old(rng)),
            low as int,
            high as int,
        ).1,
{
    rand::Rng::random_range(rng, low..high)
}

} // verus!
