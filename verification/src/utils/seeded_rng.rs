//! The seeded source of coin flips that synthetic boards are made from.
//!
//! The generator itself is `rand`'s `StdRng`, which this library cannot look
//! into. What the library relies on is written down here, and is believed,
//! not proved: a generator holds a fixed, endless row of coin flips that are
//! still to come; drawing takes the first of them; and seeding with a number
//! always gives the same row.

use rand::rngs::StdRng;
use rand::{Rng, SeedableRng};
use vstd::prelude::*;

verus! {

/// Makes `rand::rngs::StdRng` known as a type. Nothing is said of what a
/// generator holds inside.
#[verifier::external_type_specification]
#[verifier::external_body]
pub struct ExStdRng(StdRng);

/// The coin flip that `rng` hands out at its `index`-th draw from now,
/// counted from 0, when nothing but coin flips is drawn from it.
pub uninterp spec fn upcoming(rng: StdRng, index: nat) -> bool;

/// The coin flip that a generator freshly seeded with `seed` hands out at
/// its `index`-th draw, counted from 0.
pub uninterp spec fn seeded(seed: u64, index: nat) -> bool;

/// The next `count` coin flips of `rng`, in the order in which they come.
pub open spec fn next_draws(rng: StdRng, count: nat) -> Seq<bool> {
    Seq::new(count, |i: int| upcoming(rng, i as nat))
}

/// `after` is `before` with `count` coin flips drawn from it.
pub open spec fn advanced(before: StdRng, after: StdRng, count: nat) -> bool {
    forall|i: nat| #[trigger] upcoming(after, i) == upcoming(before, i + count)
}

/// `rng` stands where a generator stands that was just seeded with `seed`.
pub open spec fn fresh(rng: StdRng, seed: u64) -> bool {
    forall|i: nat| #[trigger] upcoming(rng, i) == seeded(seed, i)
}

/// Calls `StdRng::seed_from_u64` of `rand`.
///
/// Believed of it: the coin flips that the new generator will hand out
/// are fixed by `seed` alone, in every run and on every machine, for the
/// version of `rand` that the library is built with. `rand` stretches the
/// seed to a key by a fixed arithmetic rule and starts a ChaCha stream from
/// that key; nothing else enters.
#[verifier::external_body]
pub(crate) fn seed_rng(seed: u64) -> (rng: StdRng)
    ensures
        forall|i: nat| #[trigger] upcoming(rng, i) == seeded(seed, i),
{
    StdRng::seed_from_u64(seed)
}

/// Calls `Rng::gen::<bool>` of `rand` on a `StdRng`.
///
/// Believed of it: it hands out the first of the generator's coming coin
/// flips, moves the generator on by exactly one, and never fails. `rand`
/// takes one 32-bit word from the stream for each `bool` and tests its top
/// bit.
#[verifier::external_body]
pub(crate) fn draw_bool(rng: &mut StdRng) -> (flip: bool)
    ensures
        flip == upcoming(*old(rng), 0),
        forall|i: nat| #[trigger] upcoming(*final(rng), i) == upcoming(*old(rng), i + 1),
{
    rng.gen::<bool>()
}

/// Two generators that stand where a generator seeded with the same number
/// stands will hand out the same coin flips.
pub proof fn lemma_same_seed_same_draws(a: StdRng, b: StdRng, seed: u64, count: nat)
    requires
        fresh(a, seed),
        fresh(b, seed),
    ensures
        next_draws(a, count) == next_draws(b, count),
{
    assert(next_draws(a, count) =~= next_draws(b, count));
}

} // verus!
