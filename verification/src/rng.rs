//! The random-number source: `rand`'s `StdRng`, reached through a few
//! trusted calls.  Every drawn value is stated only by the range it lies in.

use vstd::prelude::*;
use rand::rngs::StdRng;
use rand::{Rng, RngCore, SeedableRng};

verus! {

#[verifier::external_type_specification]
#[verifier::external_body]
pub struct ExStdRng(StdRng);

/// `StdRng::seed_from_u64`: a generator whose output stream is fixed by
/// `seed` (for a given `rand` version and machine word size).  Nothing is
/// stated of the generator's state, so no later draw is tied to the seed.
#[verifier::external_body]
pub(crate) fn rng_from_seed(seed: u64) -> StdRng {
    StdRng::seed_from_u64(seed)
}

/// `StdRng::from_rng(OsRng)`: a generator seeded from the operating system,
/// or `None` when the operating system cannot supply entropy (`from_rng`
/// passes on the `Err` of `OsRng::try_fill_bytes` and does not panic).
/// Nothing is stated of which of the two comes back, nor of the seed.
#[verifier::external_body]
pub(crate) fn try_rng_from_entropy() -> Option<StdRng> {
    StdRng::from_rng(rand::rngs::OsRng).ok()
}

/// `Rng::gen_range(low..=high)` on `u32`: a value in `low..=high`.
/// (`rand` panics on an empty range, which `requires` excludes.)
#[verifier::external_body]
pub(crate) fn draw_u32(rng: &mut StdRng, low: u32, high: u32) -> (r: u32)
    requires
        low <= high,
    ensures
        low <= r <= high,
{
    rng.gen_range(low..=high)
}

/// `Rng::gen_range(low..=high)` on `u8`: a value in `low..=high`.
#[verifier::external_body]
pub(crate) fn draw_u8(rng: &mut StdRng, low: u8, high: u8) -> (r: u8)
    requires
        low <= high,
    ensures
        low <= r <= high,
{
    rng.gen_range(low..=high)
}

/// `Rng::gen_range(low..=high)` on `usize`: a value in `low..=high`.
#[verifier::external_body]
pub(crate) fn draw_usize(rng: &mut StdRng, low: usize, high: usize) -> (r: usize)
    requires
        low <= high,
    ensures
        low <= r <= high,
{
    rng.gen_range(low..=high)
}

/// `RngCore::next_u32`: any `u32`.
#[verifier::external_body]
pub(crate) fn next_u32(rng: &mut StdRng) -> u32 {
    rng.next_u32()
}

/// `Rng::gen_ratio(1, 2)`: a fair coin.  `rand` samples it exactly as
/// `gen_bool(0.5)`: one 64-bit word, true below 2^63.  Either side can come
/// back, so nothing is stated of the result; the constant ratio is valid, so
/// the call does not panic.
#[verifier::external_body]
pub(crate) fn coin_flip(rng: &mut StdRng) -> bool {
    rng.gen_ratio(1, 2)
}

} // verus!
