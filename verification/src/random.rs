//! The pseudorandom generator that the dice draw from.
//!
//! Everything here is taken on trust from the `rand` crate. A generator is
//! seeded at random, but from then on it is a fixed stream of draws: what it
//! gives next depends on its own value and on nothing else. Nothing is claimed
//! about which numbers the stream holds: the dice are verified for every one.

use rand::rngs::OsRng;
use rand::rngs::StdRng;
use rand::RngCore;
use rand::SeedableRng;
use vstd::prelude::*;

verus! {

/// `rand::rngs::StdRng`, carried through as an opaque value.
#[verifier::external_type_specification]
#[verifier::external_body]
pub struct ExStdRng(rand::rngs::StdRng);

/// `rand::Error`, carried through as an opaque value.
#[verifier::external_type_specification]
#[verifier::external_body]
pub struct ExRandError(rand::Error);

/// Calls `StdRng::from_rng(OsRng)`: a generator seeded by the operating
/// system, or the error of the entropy source. Which of the two comes back
/// depends on the machine, so nothing is claimed about it.
#[verifier::external_body]
pub(crate) fn seed_from_os() -> Result<StdRng, rand::Error> {
    StdRng::from_rng(OsRng)
}

/// The draw that `rng` gives after `k` draws have been taken from it: the
/// result of call number `k` of `RngCore::next_u32`, counted from zero. The
/// generator reads it from its buffer and refills the buffer from its own
/// state, so it is settled by the value of the generator.
pub uninterp spec fn draw_at(rng: StdRng, k: int) -> u32;

/// Whether `after` is `before` with its first `count` draws taken: what
/// `after` has yet to give is what `before` had to give from there on.
pub open spec fn advanced(before: StdRng, after: StdRng, count: int) -> bool {
    forall|k: int| 0 <= k ==> #[trigger] draw_at(after, k) == draw_at(before, k + count)
}

/// Calls `RngCore::next_u32` on the generator and hands back the draw. The
/// draw is the first of the stream, and the generator is left one draw on.
/// Which number that is, is not claimed: any `u32` may come back.
#[verifier::external_body]
pub(crate) fn next_draw(rng: &mut StdRng) -> (draw: u32)
    ensures
        draw == draw_at(*old(rng), 0),
        advanced(*old(rng), *final(rng), 1),
{
    rng.next_u32()
}

} // verus!
