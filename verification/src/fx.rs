//! Saturating fixed-point arithmetic on `i64`.
//!
//! A fixed-point number holds the real value multiplied by `SCALE`.
//! Results that would leave `[-i64::MAX, i64::MAX]` are clamped to that
//! symmetric range, so no operation here overflows or panics.  Products are
//! scaled back down with truncation toward zero.

use vstd::prelude::*;

verus! {

/// The fixed-point representation of 1.0.
pub const SCALE: i64 = 10_000_000;

/// Duration of one simulation tick, in fixed-point seconds (1/300 s,
/// truncated to the fixed-point grid).
pub const PHYSICS_TIME_STEP: i64 = 33_333;

/// Threshold below which a velocity axis is treated as at rest, and the
/// gap left between a collider and the wall it was snapped to.
pub const MU: i64 = 3;

/// The fixed-point representation of one half.
pub const HALF: i64 = 5_000_000;

/// Clamp a mathematical integer into the symmetric `i64` range.
pub open spec fn sat64(x: int) -> int {
    if x > i64::MAX {
        i64::MAX as int
    } else if x < -(i64::MAX as int) {
        -(i64::MAX as int)
    } else {
        x
    }
}

/// Divide by `SCALE`, truncating toward zero.
pub open spec fn div_scale(x: int) -> int {
    if x >= 0 {
        x / (SCALE as int)
    } else {
        -((-x) / (SCALE as int))
    }
}

/// Saturating fixed-point addition.
pub open spec fn add_sat(a: int, b: int) -> int {
    sat64(a + b)
}

/// Saturating fixed-point subtraction.
pub open spec fn sub_sat(a: int, b: int) -> int {
    sat64(a - b)
}

/// Saturating fixed-point negation.
pub open spec fn neg_sat(a: int) -> int {
    sat64(-a)
}

/// Saturating fixed-point product: `a * b / SCALE`, truncated toward zero.
pub open spec fn mul_sat(a: int, b: int) -> int {
    sat64(div_scale(a * b))
}

/// Absolute value, saturated (so `abs_sat(i64::MIN) == i64::MAX`).
pub open spec fn abs_sat(a: int) -> int {
    if a >= 0 {
        sat64(a)
    } else {
        sat64(-a)
    }
}

/// Clamp an `i128` intermediate into the symmetric `i64` range.
fn clamp64(x: i128) -> (r: i64)
    ensures
        r as int == sat64(x as int),
{
    if x > i64::MAX as i128 {
        i64::MAX
    } else if x < -(i64::MAX as i128) {
        -i64::MAX
    } else {
        x as i64
    }
}

/// Fixed-point addition, saturating.
pub fn fx_add(a: i64, b: i64) -> (r: i64)
    ensures
        r as int == add_sat(a as int, b as int),
{
    clamp64(a as i128 + b as i128)
}

/// Fixed-point subtraction, saturating.
pub fn fx_sub(a: i64, b: i64) -> (r: i64)
    ensures
        r as int == sub_sat(a as int, b as int),
{
    clamp64(a as i128 - b as i128)
}

/// Fixed-point negation, saturating.
pub fn fx_neg(a: i64) -> (r: i64)
    ensures
        r as int == neg_sat(a as int),
{
    clamp64(-(a as i128))
}

/// Absolute value, saturating.
pub fn fx_abs(a: i64) -> (r: i64)
    ensures
        r as int == abs_sat(a as int),
{
    if a >= 0 {
        a
    } else {
        clamp64(-(a as i128))
    }
}

/// A product of factors with equal signs scales down to a value that is
/// still at least zero.
pub proof fn lemma_mul_sat_nonneg(a: int, b: int)
    requires
        0 <= a,
        0 <= b,
    ensures
        0 <= mul_sat(a, b),
{
    assert(0 <= a * b) by (nonlinear_arith)
        requires
            0 <= a,
            0 <= b,
    ;
}

/// A product of factors with opposite signs scales down to a value that
/// is still at most zero.
pub proof fn lemma_mul_sat_nonpos(a: int, b: int)
    requires
        a <= 0,
        0 <= b,
    ensures
        mul_sat(a, b) <= 0,
{
    assert(a * b <= 0) by (nonlinear_arith)
        requires
            a <= 0,
            0 <= b,
    ;
}

/// The exact product of two `i64` values, computed in double width.
pub fn wide_mul(a: i64, b: i64) -> (r: i128)
    ensures
        r as int == (a as int) * (b as int),
{
    let ai: i128 = a as i128;
    let bi: i128 = b as i128;
    proof {
        assert(-0x4000_0000_0000_0000_0000_0000_0000_0000
            <= (ai as int) * (bi as int)
            <= 0x4000_0000_0000_0000_0000_0000_0000_0000) by (nonlinear_arith)
            requires
                -0x8000_0000_0000_0000 <= ai as int <= 0x7fff_ffff_ffff_ffff,
                -0x8000_0000_0000_0000 <= bi as int <= 0x7fff_ffff_ffff_ffff,
        ;
    }
    ai * bi
}

/// Fixed-point multiplication: scales the double-width product back down
/// with truncation toward zero, then saturates.
pub fn fx_mul(a: i64, b: i64) -> (r: i64)
    ensures
        r as int == mul_sat(a as int, b as int),
{
    let ai: i128 = a as i128;
    let bi: i128 = b as i128;
    proof {
        assert(-0x4000_0000_0000_0000_0000_0000_0000_0000
            <= (ai as int) * (bi as int)
            <= 0x4000_0000_0000_0000_0000_0000_0000_0000) by (nonlinear_arith)
            requires
                -0x8000_0000_0000_0000 <= ai as int <= 0x7fff_ffff_ffff_ffff,
                -0x8000_0000_0000_0000 <= bi as int <= 0x7fff_ffff_ffff_ffff,
        ;
    }
    let p: i128 = ai * bi;
    let q: i128 = if p >= 0 {
        ((p as u128) / (SCALE as u128)) as i128
    } else {
        -(((-p) as u128 / (SCALE as u128)) as i128)
    };
    assert(q as int == div_scale(p as int));
    clamp64(q)
}

} // verus!
