//! Random draws from the game's shared generator.
use vstd::prelude::*;
use crate::units::{bound, bound_to};

verus! {

/// The widest range, on either side of zero, from which a draw is exact.
pub const DRAW_LIMIT: i64 = 0x10_0000_0000_0000;

/// Calls `macroquad::rand::gen_range` on two `i64` limits. The generator
/// scales a 32-bit draw into the span between the limits in double
/// precision and rounds toward zero, so while both limits are exactly
/// representable the result lies between them, whichever is the greater.
/// Nothing more is claimed: the value depends on the generator's state.
#[verifier::external_body]
fn gen_range_i64(low: i64, high: i64) -> (r: i64)
    requires
        -DRAW_LIMIT <= low <= DRAW_LIMIT,
        -DRAW_LIMIT <= high <= DRAW_LIMIT,
    ensures
        low <= r <= high || high <= r <= low,
{
    macroquad::rand::gen_range(low, high)
}

/// Calls `macroquad::rand::rand`, which returns the next 32-bit value of the
/// shared generator. Nothing is claimed of the value.
#[verifier::external_body]
fn next_u32() -> (r: u32)
{
    macroquad::rand::rand()
}

/// A limit brought back to within `DRAW_LIMIT` of zero.
pub open spec fn drawable(limit: i64) -> int {
    bound(limit as int, -DRAW_LIMIT as int, DRAW_LIMIT as int)
}

/// A random value between two limits, whichever is the greater. Limits
/// beyond `DRAW_LIMIT` are first brought back to it.
pub fn draw_between(low: i64, high: i64) -> (r: i64)
    ensures
        drawable(low) <= r <= drawable(high) || drawable(high) <= r <= drawable(low),
        -DRAW_LIMIT <= low <= high <= DRAW_LIMIT ==> low <= r <= high,
{
    gen_range_i64(bound_to(low, -DRAW_LIMIT, DRAW_LIMIT), bound_to(high, -DRAW_LIMIT, DRAW_LIMIT))
}

/// A random number used to choose among a few alternatives.
pub fn draw_choice() -> (r: u32)
{
    next_u32()
}

} // verus!
