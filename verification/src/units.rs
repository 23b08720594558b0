//! Fixed-point world units and the arithmetic helpers the simulation uses.
//!
//! Every coordinate, velocity and playfield bound is an `i64` counted in
//! thousandths of a world unit, so a position of `1.0` world units is stored
//! as `1000`. Products of two fixed-point quantities are rescaled by a
//! truncating division toward zero, which mirrors how the quantities would
//! round when narrowed by hand.

use vstd::prelude::*;

verus! {

use vstd::arithmetic::div_mod::{
    lemma_div_by_multiple,
    lemma_div_is_ordered,
    lemma_div_nonincreasing,
    lemma_div_pos_is_pos,
};

/// Number of stored increments per world unit (thousandths).
pub const UNIT: i64 = 1000;

/// Fixed multiplier applied to every integration step to tune perceived speed.
pub const TIME_SCALE: i64 = 30;

/// Largest magnitude a collider half-extent may have.
pub const HALF_EXTENT_LIMIT: i64 = 1_000_000_000;

/// Largest magnitude allowed for a playfield bound or out-of-bounds margin.
pub const BOUND_LIMIT: i64 = 1_000_000_000;

/// Largest magnitude a paddle coordinate may reach; paddle moves saturate here.
pub const PADDLE_POS_LIMIT: i64 = 1_000_000_000;

/// Largest magnitude a ball coordinate may hold between steps. Wide enough
/// for every value a step can leave behind: a snap against a paddle, a clamp
/// to a playfield bound, or a coordinate inside the out-of-bounds margin.
pub const POS_LIMIT: i64 = 4_000_000_000;

/// Largest velocity magnitude the model represents; velocity updates saturate
/// here so a step from a well-formed state never overflows.
pub const SPEED_LIMIT: i64 = 100_000_000_000;

/// Largest downward acceleration a physics configuration may carry.
pub const GRAVITY_LIMIT: i64 = 1_000_000_000;

/// Largest timestep a physics configuration may carry (one thousand seconds).
pub const DT_LIMIT: i64 = 1_000_000;

/// Integer division truncating toward zero, the rounding that rescales a
/// fixed-point product.
pub open spec fn div_toward_zero(n: int, d: int) -> int {
    if n >= 0 {
        n / d
    } else {
        -((-n) / d)
    }
}

/// Velocity component saturated to the representable speed range.
pub open spec fn clamped_speed(v: int) -> int {
    if v > SPEED_LIMIT {
        SPEED_LIMIT as int
    } else if v < -SPEED_LIMIT {
        -SPEED_LIMIT as int
    } else {
        v
    }
}

/// Paddle coordinate saturated to the representable paddle range.
pub open spec fn clamped_paddle(y: int) -> int {
    if y > PADDLE_POS_LIMIT {
        PADDLE_POS_LIMIT as int
    } else if y < -PADDLE_POS_LIMIT {
        -PADDLE_POS_LIMIT as int
    } else {
        y
    }
}

/// Truncation toward zero never grows a value's magnitude.
pub proof fn lemma_div_toward_zero_bounds(n: int, d: int)
    requires
        0 < d,
    ensures
        n >= 0 ==> 0 <= div_toward_zero(n, d) <= n,
        n < 0 ==> n <= div_toward_zero(n, d) <= 0,
{
    if n >= 0 {
        lemma_div_pos_is_pos(n, d);
        lemma_div_nonincreasing(n, d);
    } else {
        lemma_div_pos_is_pos(-n, d);
        lemma_div_nonincreasing(-n, d);
    }
}

/// A dividend no larger than `b` times the divisor truncates to a quotient
/// no larger than `b`, on either side of zero.
pub proof fn lemma_div_toward_zero_scaled_bound(n: int, d: int, b: int)
    requires
        0 < d,
        0 <= b,
        -(b * d) <= n <= b * d,
    ensures
        -b <= div_toward_zero(n, d) <= b,
{
    if n >= 0 {
        lemma_div_pos_is_pos(n, d);
        lemma_div_is_ordered(n, b * d, d);
        lemma_div_by_multiple(b, d);
    } else {
        lemma_div_pos_is_pos(-n, d);
        lemma_div_is_ordered(-n, b * d, d);
        lemma_div_by_multiple(b, d);
    }
}

/// Divide truncating toward zero, the rescaling step of fixed-point products.
pub fn div_trunc(n: i64, d: u64) -> (r: i64)
    requires
        n != i64::MIN,
        0 < d,
    ensures
        r == div_toward_zero(n as int, d as int),
        n >= 0 ==> 0 <= r <= n,
        n < 0 ==> n <= r <= 0,
{
    proof {
        lemma_div_toward_zero_bounds(n as int, d as int);
    }
    if n >= 0 {
        let q: u64 = (n as u64) / d;
        q as i64
    } else {
        let m: u64 = (-n) as u64;
        let q: u64 = m / d;
        -(q as i64)
    }
}

/// Saturate a paddle coordinate to the representable paddle range.
pub fn clamp_paddle(y: i64) -> (r: i64)
    ensures
        r == clamped_paddle(y as int),
        -PADDLE_POS_LIMIT <= r <= PADDLE_POS_LIMIT,
{
    if y > PADDLE_POS_LIMIT {
        PADDLE_POS_LIMIT
    } else if y < -PADDLE_POS_LIMIT {
        -PADDLE_POS_LIMIT
    } else {
        y
    }
}

/// Saturate a velocity component to the representable speed range.
pub fn clamp_speed(v: i64) -> (r: i64)
    ensures
        r == clamped_speed(v as int),
        -SPEED_LIMIT <= r <= SPEED_LIMIT,
{
    if v > SPEED_LIMIT {
        SPEED_LIMIT
    } else if v < -SPEED_LIMIT {
        -SPEED_LIMIT
    } else {
        v
    }
}

} // verus!
