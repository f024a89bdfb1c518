//! Fixed-point sine and cosine of binary angles.
//!
//! An angle is a `u32` where a full turn is `2^32`. Sine and cosine are
//! scaled by [`DIR_ONE`] and follow Bhaskara's rational approximation
//! `sin(x) ~ 4 x (pi - x) / (5 pi^2 / 4 - x (pi - x))` over each half turn.
use vstd::prelude::*;

verus! {

/// The fixed-point value of 1.0 for direction components.
pub const DIR_ONE: i64 = 1000;

/// Binary angle of a half turn.
pub const HALF_TURN: u64 = 0x8000_0000;

/// Binary angle of a quarter turn.
pub const QUARTER_TURN: u64 = 0x4000_0000;

/// Steps in a half turn at which the approximation is evaluated.
pub const HALF_TURN_STEPS: u64 = 0x8000;

/// Binary angle units in one step.
pub const STEP: u64 = 0x1_0000;

/// `5 * HALF_TURN_STEPS^2 / 4`, the constant term of the denominator.
pub const BHASKARA_DENOM: u64 = 0x5000_0000;

/// Approximate `|sin|` at step `h` of a half turn, scaled by `DIR_ONE`.
pub open spec fn half_sine(h: int) -> int {
    let p = h * (HALF_TURN_STEPS - h);
    (4 * DIR_ONE * p) / (BHASKARA_DENOM - p)
}

/// Fixed-point sine of a binary angle.
pub open spec fn sine_of(a: u32) -> int {
    let h: int = (a as int % HALF_TURN as int) / STEP as int;
    if a < HALF_TURN { half_sine(h) } else { -half_sine(h) }
}

/// Fixed-point cosine of a binary angle: the sine a quarter turn ahead.
pub open spec fn cosine_of(a: u32) -> int {
    sine_of(((a as int + QUARTER_TURN as int) % 0x1_0000_0000) as u32)
}

proof fn lemma_half_sine_bounds(h: int)
    requires
        0 <= h < HALF_TURN_STEPS,
    ensures
        0 <= h * (HALF_TURN_STEPS - h) <= 0x1000_0000,
        0 <= half_sine(h) <= DIR_ONE,
{
    let p = h * (HALF_TURN_STEPS - h);
    assert(0 <= p <= 0x1000_0000) by (nonlinear_arith)
        requires
            p == h * (0x8000 - h),
            0 <= h < 0x8000,
    {
        assert((h - 0x4000) * (h - 0x4000) >= 0);
    }
    assert(0 <= (4 * 1000 * p) / (0x5000_0000 - p) <= 1000) by (nonlinear_arith)
        requires
            0 <= p <= 0x1000_0000,
    {
        assert(4 * 1000 * p <= 1000 * (0x5000_0000 - p));
    }
}

/// Fixed-point sine of `a`, in `[-DIR_ONE, DIR_ONE]`.
pub fn sine(a: u32) -> (r: i64)
    ensures
        r == sine_of(a),
        -DIR_ONE <= r <= DIR_ONE,
{
    let h: u64 = (a as u64 % HALF_TURN) / STEP;
    proof {
        lemma_half_sine_bounds(h as int);
    }
    let p: u64 = h * (HALF_TURN_STEPS - h);
    let m: u64 = (4 * 1000 * p) / (BHASKARA_DENOM - p);
    if (a as u64) < HALF_TURN {
        m as i64
    } else {
        -(m as i64)
    }
}

/// Fixed-point cosine of `a`, in `[-DIR_ONE, DIR_ONE]`.
pub fn cosine(a: u32) -> (r: i64)
    ensures
        r == cosine_of(a),
        -DIR_ONE <= r <= DIR_ONE,
{
    let ahead: u64 = (a as u64 + QUARTER_TURN) % 0x1_0000_0000;
    sine(ahead as u32)
}

} // verus!
