//! The seeded generator that fills a fresh board.

use vstd::prelude::*;
use rand::Rng;
use rand::SeedableRng;
use rand_chacha::ChaCha8Rng;

verus! {

/// `rand_chacha::ChaCha8Rng`, the generator that fills the board. Its state
/// is not looked into; it is only carried from draw to draw.
#[verifier::external_type_specification]
#[verifier::external_body]
pub struct ExChaCha8Rng(ChaCha8Rng);

/// The booleans that a generator made by `ChaCha8Rng::seed_from_u64(seed)`
/// yields when booleans are drawn from it one after the other, by position.
pub uninterp spec fn seeded_bool(seed: u64, index: nat) -> bool;

/// The booleans that a generator in the state `rng` will yield when
/// booleans are drawn from it one after the other, by position from now on.
/// The generator holds its stream as a collection holds its items.
pub uninterp spec fn upcoming_bool(rng: ChaCha8Rng, index: nat) -> bool;

/// `ChaCha8Rng::seed_from_u64`: a generator whose state, and with it every
/// boolean that it will yield, is fixed by the seed alone.
#[verifier::external_body]
pub(crate) fn rng_from_seed(seed: u64) -> (rng: ChaCha8Rng)
    ensures
        forall|k: nat| #[trigger] upcoming_bool(rng, k) == seeded_bool(seed, k),
{
    ChaCha8Rng::seed_from_u64(seed)
}

/// `Rng::gen::<bool>`: yields the next boolean of the generator's stream and
/// moves the generator one position on.
#[verifier::external_body]
pub(crate) fn draw_bool(rng: &mut ChaCha8Rng) -> (drawn: bool)
    ensures
        drawn == upcoming_bool(*old(rng), 0),
        forall|k: nat| #[trigger] upcoming_bool(*final(rng), k) == upcoming_bool(*old(rng), k + 1),
{
    rng.gen()
}

} // verus!
