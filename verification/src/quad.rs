//! The two services this crate takes from `macroquad`: bounded pseudo-random
//! integers and `clamp`. Their contracts are assumed, not proved.

use macroquad::rand::RandGenerator;
use vstd::prelude::*;

verus! {

/// `macroquad::rand::RandGenerator`, a pseudo-random generator with hidden
/// state. It is only ever passed through; nothing is claimed of what it holds.
#[verifier::external_type_specification]
#[verifier::external_body]
pub struct ExRandGenerator(RandGenerator);

/// Largest upper bound for which [`gen_range`] is specified.
pub const ROLL_LIMIT: u64 = 0x10_0000;

/// `RandGenerator::gen_range` for `u64`.
///
/// The generator scales a 32-bit draw `k` to `low + (high - low) * k / 2^32` in
/// `f64` and truncates. With `high` at most `2^20` every intermediate value is
/// exact, so the result lies in `low..high`. Nothing else is claimed: the
/// value depends on the generator's hidden state.
#[verifier::external_body]
pub(crate) fn gen_range(rng: &RandGenerator, low: u64, high: u64) -> (r: u64)
    requires
        low < high <= ROLL_LIMIT,
    ensures
        low <= r < high,
{
    rng.gen_range(low, high)
}

/// `macroquad::math::clamp` for `i64`: `min` when `value` is below it, else
/// `max` when `value` is above it, else `value` itself.
#[verifier::external_body]
pub(crate) fn clamp(value: i64, min: i64, max: i64) -> (r: i64)
    ensures
        r == if value < min {
            min
        } else if value > max {
            max
        } else {
            value
        },
{
    macroquad::math::clamp(value, min, max)
}

} // verus!
