//! Fixed-point 2D vectors.

use vstd::prelude::*;
use crate::fx::{fx_add, fx_sub, fx_neg, fx_abs, fx_mul, add_sat, sub_sat, neg_sat, abs_sat,
    mul_sat, SCALE};

verus! {

/// A 2D vector of fixed-point coordinates.
#[derive(Clone, Copy, PartialEq, Eq, Structural, Debug)]
pub struct Vec2 {
    pub x: i64,
    pub y: i64,
}

impl Vec2 {
    /// The zero vector.
    pub fn zero() -> (r: Vec2)
        ensures
            r.x == 0 && r.y == 0,
    {
        Vec2 { x: 0, y: 0 }
    }

    /// The vector (1.0, 1.0).
    pub fn one() -> (r: Vec2)
        ensures
            r.x == SCALE && r.y == SCALE,
    {
        Vec2 { x: SCALE, y: SCALE }
    }

    /// Component-wise saturating sum.
    pub fn plus(self, o: Vec2) -> (r: Vec2)
        ensures
            r == v2_plus(self, o),
            r.x as int == add_sat(self.x as int, o.x as int),
            r.y as int == add_sat(self.y as int, o.y as int),
    {
        Vec2 { x: fx_add(self.x, o.x), y: fx_add(self.y, o.y) }
    }

    /// Component-wise saturating difference.
    pub fn minus(self, o: Vec2) -> (r: Vec2)
        ensures
            r == v2_minus(self, o),
            r.x as int == sub_sat(self.x as int, o.x as int),
            r.y as int == sub_sat(self.y as int, o.y as int),
    {
        Vec2 { x: fx_sub(self.x, o.x), y: fx_sub(self.y, o.y) }
    }

    /// Saturating negation of both components.
    pub fn negated(self) -> (r: Vec2)
        ensures
            r.x as int == neg_sat(self.x as int),
            r.y as int == neg_sat(self.y as int),
    {
        Vec2 { x: fx_neg(self.x), y: fx_neg(self.y) }
    }

    /// Component-wise absolute value, saturating.
    pub fn abs2(self) -> (r: Vec2)
        ensures
            r.x as int == abs_sat(self.x as int),
            r.y as int == abs_sat(self.y as int),
    {
        Vec2 { x: fx_abs(self.x), y: fx_abs(self.y) }
    }

    /// Both components multiplied by the fixed-point scalar `s`.
    pub fn scaled(self, s: i64) -> (r: Vec2)
        ensures
            r == v2_scaled(self, s as int),
            r.x as int == mul_sat(self.x as int, s as int),
            r.y as int == mul_sat(self.y as int, s as int),
    {
        Vec2 { x: fx_mul(self.x, s), y: fx_mul(self.y, s) }
    }

    /// Fixed-point dot product.
    pub fn dot(self, o: Vec2) -> (r: i64)
        ensures
            r as int == dot_spec(self, o),
    {
        fx_add(fx_mul(self.x, o.x), fx_mul(self.y, o.y))
    }

    /// Counter-clockwise perpendicular: (x, y) becomes (-y, x).
    pub fn perp(self) -> (r: Vec2)
        ensures
            r == v2_perp(self),
            r.x as int == neg_sat(self.y as int),
            r.y == self.x,
    {
        Vec2 { x: fx_neg(self.y), y: self.x }
    }
}

/// What `Vec2::dot` computes: the saturating sum of the two scaled products.
pub open spec fn dot_spec(a: Vec2, b: Vec2) -> int {
    add_sat(mul_sat(a.x as int, b.x as int), mul_sat(a.y as int, b.y as int))
}

/// The component-wise saturating sum, as a value.
pub open spec fn v2_plus(a: Vec2, b: Vec2) -> Vec2 {
    Vec2 { x: add_sat(a.x as int, b.x as int) as i64, y: add_sat(a.y as int, b.y as int) as i64 }
}

/// The component-wise saturating difference, as a value.
pub open spec fn v2_minus(a: Vec2, b: Vec2) -> Vec2 {
    Vec2 { x: sub_sat(a.x as int, b.x as int) as i64, y: sub_sat(a.y as int, b.y as int) as i64 }
}

/// Both components multiplied by the fixed-point scalar `s`, as a value.
pub open spec fn v2_scaled(a: Vec2, s: int) -> Vec2 {
    Vec2 { x: mul_sat(a.x as int, s) as i64, y: mul_sat(a.y as int, s) as i64 }
}

/// The counter-clockwise perpendicular, as a value.
pub open spec fn v2_perp(a: Vec2) -> Vec2 {
    Vec2 { x: neg_sat(a.y as int) as i64, y: a.x }
}

} // verus!
