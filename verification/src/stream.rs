//! The seeded pseudo-random stream that one randomization pass draws from.
//!
//! The generator is rand's `StdRng`, reached through nannou's re-export.
//! Verus cannot look inside it, so every item in this file is trusted: the
//! contracts say what rand's source shows and are believed without proof.
//! What the generator returns is a function of its internal state alone, and
//! the contracts give those results names so that callers can state exactly
//! which draw ends up where.

use vstd::prelude::*;
use nannou::rand::rngs::StdRng;
use nannou::rand::seq::SliceRandom;
use nannou::rand::Rng;
use nannou::rand::SeedableRng;

verus! {

/// rand's standard generator, opaque to the verifier.
#[verifier::external_type_specification]
#[verifier::external_body]
pub struct ExStdRng(StdRng);

/// The internal state of a generator (cipher key, block counter, buffered
/// output words and read position), as one sequence of words. Two generators
/// with equal states produce equal draws.
pub uninterp spec fn generator_state(rng: StdRng) -> Seq<u32>;

/// The state of the generator that `StdRng::seed_from_u64` builds from `seed`.
pub uninterp spec fn seeded_state(seed: u64) -> Seq<u32>;

/// What `Rng::gen_range(low..high)` does for `i32` bounds on a generator in
/// state `state`: the number it returns and the state it leaves behind.
pub uninterp spec fn range_draw(state: Seq<u32>, low: int, high: int) -> (int, Seq<u32>);

/// What `SliceRandom::choose` does on a slice of `len > 0` items with a
/// generator in state `state`: the index of the item it returns and the state
/// it leaves behind.
pub uninterp spec fn choice_draw(state: Seq<u32>, len: nat) -> (int, Seq<u32>);

/// Calls `StdRng::seed_from_u64`. The seed is expanded by a fixed integer
/// recurrence into the cipher key, so the generator's state depends on the
/// seed and on nothing else.
#[verifier::external_body]
pub(crate) fn seeded_generator(seed: u64) -> (rng: StdRng)
    ensures
        generator_state(rng) == seeded_state(seed),
{
    StdRng::seed_from_u64(seed)
}

/// Calls `Rng::gen_range(low..high)`, which panics on an empty range. The
/// number returned lies in `low..high`; it and the state left behind depend on
/// the state before the call and on the two bounds only.
#[verifier::external_body]
pub(crate) fn draw_in_range(rng: &mut StdRng, low: i32, high: i32) -> (drawn: i32)
    requires
        low < high,
    ensures
        low <= drawn < high,
        (drawn as int, generator_state(*final(rng))) == range_draw(
            generator_state(*old(rng)),
            low as int,
            high as int,
        ),
{
    rng.gen_range(low..high)
}

/// Calls `SliceRandom::choose`. On an empty slice it returns `None` and does
/// not touch the generator. Otherwise it returns the item at an index below
/// the slice's length; that index and the state left behind depend on the
/// state before the call and on the length only.
#[verifier::external_body]
pub(crate) fn choose_item<T: Copy>(items: &[T], rng: &mut StdRng) -> (picked: Option<T>)
    ensures
        items@.len() == 0 ==> picked.is_none() && generator_state(*final(rng))
            == generator_state(*old(rng)),
        items@.len() > 0 ==> picked == Some(
            items@[choice_draw(generator_state(*old(rng)), items@.len()).0],
        ) && 0 <= choice_draw(generator_state(*old(rng)), items@.len()).0 < items@.len(),
        items@.len() > 0 ==> generator_state(*final(rng)) == choice_draw(
            generator_state(*old(rng)),
            items@.len(),
        ).1,
{
    items.choose(rng).copied()
}

/// Calls nannou's `random_range(0, bound)`, which draws from the thread's own
/// generator and panics when the two bounds are equal. Nothing is known of the
/// number but that it lies below `bound`.
#[verifier::external_body]
pub(crate) fn ambient_draw(bound: u64) -> (drawn: u64)
    requires
        bound > 0,
    ensures
        drawn < bound,
{
    nannou::rand::random_range(0, bound)
}

} // verus!
