//! Angles in arcseconds, and the sine and cosine of an angle.
//!
//! Sine is the rational approximation of Bhaskara I,
//! `16 x (180 - x) / (5 * 180 * 180 - 4 x (180 - x))` for `x` degrees between
//! 0 and 180, continued to the other half turn with the opposite sign. On
//! the four axes, and wherever the true sine is one half, it is exact.

use vstd::prelude::*;
use crate::fixed::ONE;

verus! {

/// A full turn, 360 degrees.
pub const FULL_TURN: i64 = 1_296_000;

/// A half turn, 180 degrees.
pub const HALF_TURN: i64 = 648_000;

/// A quarter turn, 90 degrees.
pub const QUARTER_TURN: i64 = 324_000;

/// The angle in `0 .. FULL_TURN` that points the same way as `angle`.
pub open spec fn normalized(angle: int) -> int {
    angle % (FULL_TURN as int)
}

/// The sine of an angle between 0 and a half turn, as a fixed-point number.
pub open spec fn half_wave(x: int) -> int {
    let p = x * (HALF_TURN - x);
    16 * ONE * p / (5 * HALF_TURN * HALF_TURN - 4 * p)
}

/// The sine of `angle`, as a fixed-point number.
pub open spec fn sine(angle: int) -> int {
    let a = normalized(angle);
    if a <= HALF_TURN {
        half_wave(a)
    } else {
        -half_wave(a - HALF_TURN)
    }
}

/// The cosine of `angle`: the sine of the angle a quarter turn further.
pub open spec fn cosine(angle: int) -> int {
    sine(angle + QUARTER_TURN)
}

/// Between 0 and a half turn the approximation stays between 0 and `ONE`.
pub proof fn lemma_half_wave_range(x: int)
    requires
        0 <= x <= HALF_TURN,
    ensures
        0 <= half_wave(x) <= ONE,
        0 <= x * (HALF_TURN - x) <= 104_976_000_000,
{
    let p = x * (648_000 - x);
    let d = 2_099_520_000_000 - 4 * p;
    assert(0 <= p && 4 * p <= 419_904_000_000) by (nonlinear_arith)
        requires
            0 <= x <= 648_000,
            p == x * (648_000 - x),
    {
        assert((648_000 - 2 * x) * (648_000 - 2 * x) >= 0);
        assert((648_000 - 2 * x) * (648_000 - 2 * x) == 419_904_000_000 - 4 * (x * (648_000
            - x)));
    }
    lemma_half_wave_unfold(x);
    assert(0 <= 268_435_456 * p / d <= 16_777_216) by (nonlinear_arith)
        requires
            d > 0,
            0 <= 268_435_456 * p <= 16_777_216 * d,
    ;
}

/// The approximation with its constants written out.
proof fn lemma_half_wave_unfold(x: int)
    ensures
        half_wave(x) == 268_435_456 * (x * (648_000 - x)) / (2_099_520_000_000 - 4 * (x * (648_000
            - x))),
{
    let p = x * (HALF_TURN - x);
    assert(HALF_TURN * HALF_TURN == 419_904_000_000) by (nonlinear_arith)
        requires
            HALF_TURN == 648_000,
    ;
    assert(5 * HALF_TURN * HALF_TURN == 2_099_520_000_000) by (nonlinear_arith)
        requires
            HALF_TURN * HALF_TURN == 419_904_000_000,
    ;
    assert(16 * ONE * p == 268_435_456 * p) by (nonlinear_arith)
        requires
            ONE == 16_777_216,
    ;
}

/// The values on the four axes are exact.
pub proof fn lemma_axes()
    ensures
        sine(0) == 0,
        sine(QUARTER_TURN as int) == ONE,
        sine(HALF_TURN as int) == 0,
        sine(3 * QUARTER_TURN) == -ONE,
        cosine(0) == ONE,
        cosine(QUARTER_TURN as int) == 0,
        cosine(HALF_TURN as int) == -ONE,
        cosine(3 * QUARTER_TURN) == 0,
{
    lemma_half_wave_unfold(0);
    lemma_half_wave_unfold(324_000);
    lemma_half_wave_unfold(648_000);
    assert(324_000 * (648_000 - 324_000int) == 104_976_000_000) by (nonlinear_arith);
    assert(268_435_456 * 104_976_000_000int / (2_099_520_000_000 - 4 * 104_976_000_000int)
        == 16_777_216) by (nonlinear_arith);
    assert(half_wave(0) == 0);
    assert(half_wave(324_000) == ONE);
    assert(half_wave(648_000) == 0);
}

/// Brings `angle` into `0 .. FULL_TURN`.
pub fn normalize(angle: i64) -> (out: i64)
    ensures
        out == normalized(angle as int),
        0 <= out < FULL_TURN,
{
    let r = angle % FULL_TURN;
    if r < 0 {
        r + FULL_TURN
    } else {
        r
    }
}

fn bhaskara(x: i64) -> (out: i64)
    requires
        0 <= x <= HALF_TURN,
    ensures
        out == half_wave(x as int),
        0 <= out <= ONE,
{
    proof {
        lemma_half_wave_range(x as int);
    }
    let p: i64 = x * (HALF_TURN - x);
    let top: i128 = 16 * (ONE as i128) * (p as i128);
    let bottom: i128 = 5 * (HALF_TURN as i128) * (HALF_TURN as i128) - 4 * (p as i128);
    (top / bottom) as i64
}

/// The sine of `angle`.
pub fn sin(angle: i64) -> (out: i64)
    ensures
        out == sine(angle as int),
        -ONE <= out <= ONE,
{
    let a = normalize(angle);
    if a <= HALF_TURN {
        bhaskara(a)
    } else {
        -bhaskara(a - HALF_TURN)
    }
}

/// The cosine of `angle`.
pub fn cos(angle: i64) -> (out: i64)
    ensures
        out == cosine(angle as int),
        -ONE <= out <= ONE,
{
    let a = normalize(angle);
    assert(normalized(a + QUARTER_TURN) == normalized(angle + QUARTER_TURN));
    sin(a + QUARTER_TURN)
}

} // verus!
