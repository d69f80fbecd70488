//! Fixed-point sine and cosine.
//!
//! Angles are reduced into `(-PI_FX, PI_FX]` by whole turns, then the
//! sine and cosine are evaluated as truncated Taylor polynomials on the
//! fixed-point grid.  Both functions are exactly specified: the spec
//! functions below give the value the executable code computes, and at
//! angle zero the pair is exactly (1, 0).

use vstd::prelude::*;
use vstd::math::abs;
use crate::fx::{add_sat, fx_add, fx_mul, fx_sub, mul_sat, sub_sat, HALF, SCALE};
use crate::vec2::Vec2;

verus! {

/// The fixed-point representation of pi, rounded to nearest.
pub const PI_FX: i64 = 31_415_927;

/// Exactly twice `PI_FX`.
pub const TWO_PI_FX: i64 = 62_831_854;

/// The fixed-point representation of 1/24.
pub const INV_24: i64 = 416_666;

/// The fixed-point representation of 1/720.
pub const INV_720: i64 = 13_888;

/// The fixed-point representation of 1/6.
pub const INV_6: i64 = 1_666_666;

/// The fixed-point representation of 1/120.
pub const INV_120: i64 = 83_333;

/// The fixed-point representation of 1/5040.
pub const INV_5040: i64 = 1_984;

/// The angle reduced by whole turns into `[-PI_FX, PI_FX]`.
pub open spec fn norm_spec(a: int) -> int
    decreases abs(a),
{
    if a > PI_FX {
        norm_spec(a - TWO_PI_FX)
    } else if a < -(PI_FX as int) {
        norm_spec(a + TWO_PI_FX)
    } else {
        a
    }
}

/// The truncated Taylor cosine of the reduced angle:
/// `1 - b^2/2 + b^4/24 - b^6/720` on the fixed-point grid.
pub open spec fn cos_spec(a: int) -> int {
    let b = norm_spec(a);
    let b2 = mul_sat(b, b);
    let b4 = mul_sat(b2, b2);
    let b6 = mul_sat(b4, b2);
    sub_sat(
        add_sat(sub_sat(SCALE as int, mul_sat(b2, HALF as int)), mul_sat(b4, INV_24 as int)),
        mul_sat(b6, INV_720 as int),
    )
}

/// The truncated Taylor sine of the reduced angle:
/// `b - b^3/6 + b^5/120 - b^7/5040` on the fixed-point grid.
pub open spec fn sin_spec(a: int) -> int {
    let b = norm_spec(a);
    let b2 = mul_sat(b, b);
    let b3 = mul_sat(b2, b);
    let b5 = mul_sat(mul_sat(b2, b2), b);
    let b7 = mul_sat(mul_sat(b2, b2), mul_sat(b2, b));
    sub_sat(
        add_sat(sub_sat(b, mul_sat(b3, INV_6 as int)), mul_sat(b5, INV_120 as int)),
        mul_sat(b7, INV_5040 as int),
    )
}

/// Reduce an angle by whole turns into `[-PI_FX, PI_FX]`.
pub fn norm_angle(a: i64) -> (r: i64)
    ensures
        r as int == norm_spec(a as int),
        -(PI_FX as int) <= r <= PI_FX,
{
    let mut b = a;
    while b > PI_FX
        invariant
            norm_spec(b as int) == norm_spec(a as int),
        decreases b as int + TWO_PI_FX,
    {
        b = b - TWO_PI_FX;
    }
    while b < -PI_FX
        invariant
            norm_spec(b as int) == norm_spec(a as int),
            b <= PI_FX,
        decreases TWO_PI_FX - b as int,
    {
        b = b + TWO_PI_FX;
    }
    b
}

/// Fixed-point cosine.
pub fn cos_fx(a: i64) -> (r: i64)
    ensures
        r as int == cos_spec(a as int),
{
    let b = norm_angle(a);
    let b2 = fx_mul(b, b);
    let b4 = fx_mul(b2, b2);
    let b6 = fx_mul(b4, b2);
    fx_sub(
        fx_add(fx_sub(SCALE, fx_mul(b2, HALF)), fx_mul(b4, INV_24)),
        fx_mul(b6, INV_720),
    )
}

/// Fixed-point sine.
pub fn sin_fx(a: i64) -> (r: i64)
    ensures
        r as int == sin_spec(a as int),
{
    let b = norm_angle(a);
    let b2 = fx_mul(b, b);
    let b3 = fx_mul(b2, b);
    let b5 = fx_mul(fx_mul(b2, b2), b);
    let b7 = fx_mul(fx_mul(b2, b2), fx_mul(b2, b));
    fx_sub(
        fx_add(fx_sub(b, fx_mul(b3, INV_6)), fx_mul(b5, INV_120)),
        fx_mul(b7, INV_5040),
    )
}

/// The unit direction of an angle: its cosine and sine.
pub fn from_angle(a: i64) -> (r: Vec2)
    ensures
        r.x as int == cos_spec(a as int),
        r.y as int == sin_spec(a as int),
{
    Vec2 { x: cos_fx(a), y: sin_fx(a) }
}

/// At angle zero the direction is exactly (1, 0).
pub proof fn lemma_trig_zero()
    ensures
        cos_spec(0) == SCALE,
        sin_spec(0) == 0,
{
    assert(norm_spec(0) == 0);
}

} // verus!
