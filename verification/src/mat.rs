//! Fixed-point 2D affine transforms.

use vstd::prelude::*;
use crate::fx::{fx_add, fx_neg, fx_mul, add_sat, neg_sat, mul_sat, SCALE};
use crate::vec2::Vec2;

verus! {

/// A 2D affine transform.  It maps a point `p` to
/// `(xx*p.x + xy*p.y + tx, yx*p.x + yy*p.y + ty)` in fixed-point arithmetic.
#[derive(Clone, Copy, PartialEq, Eq, Structural, Debug)]
pub struct Mat2d {
    pub xx: i64,
    pub xy: i64,
    pub yx: i64,
    pub yy: i64,
    pub tx: i64,
    pub ty: i64,
}

/// The composition `a` after `b` as an affine map, entry by entry in
/// saturating fixed-point arithmetic.
pub open spec fn mat_compose(a: Mat2d, b: Mat2d) -> Mat2d {
    Mat2d {
        xx: add_sat(mul_sat(a.xx as int, b.xx as int), mul_sat(a.xy as int, b.yx as int)) as i64,
        xy: add_sat(mul_sat(a.xx as int, b.xy as int), mul_sat(a.xy as int, b.yy as int)) as i64,
        yx: add_sat(mul_sat(a.yx as int, b.xx as int), mul_sat(a.yy as int, b.yx as int)) as i64,
        yy: add_sat(mul_sat(a.yx as int, b.xy as int), mul_sat(a.yy as int, b.yy as int)) as i64,
        tx: add_sat(
            add_sat(mul_sat(a.xx as int, b.tx as int), mul_sat(a.xy as int, b.ty as int)),
            a.tx as int,
        ) as i64,
        ty: add_sat(
            add_sat(mul_sat(a.yx as int, b.tx as int), mul_sat(a.yy as int, b.ty as int)),
            a.ty as int,
        ) as i64,
    }
}

/// Where the affine map `m` sends the point `p`.
pub open spec fn mat_apply(m: Mat2d, p: Vec2) -> Vec2 {
    Vec2 {
        x: add_sat(
            add_sat(mul_sat(m.xx as int, p.x as int), mul_sat(m.xy as int, p.y as int)),
            m.tx as int,
        ) as i64,
        y: add_sat(
            add_sat(mul_sat(m.yx as int, p.x as int), mul_sat(m.yy as int, p.y as int)),
            m.ty as int,
        ) as i64,
    }
}

/// The rotation-and-translation transform with the given cosine, sine and
/// translation: the linear part is `[[cos, -sin], [sin, cos]]`.
pub open spec fn mat_rotation_translation(cos: i64, sin: i64, t: Vec2) -> Mat2d {
    Mat2d {
        xx: cos,
        xy: neg_sat(sin as int) as i64,
        yx: sin,
        yy: cos,
        tx: t.x,
        ty: t.y,
    }
}

impl Mat2d {
    /// The identity transform.
    pub fn identity() -> (r: Mat2d)
        ensures
            r == (Mat2d { xx: SCALE, xy: 0, yx: 0, yy: SCALE, tx: 0, ty: 0 }),
    {
        Mat2d { xx: SCALE, xy: 0, yx: 0, yy: SCALE, tx: 0, ty: 0 }
    }

    /// Build the transform that rotates by the angle whose cosine and sine
    /// are given, then translates by `t`.
    pub fn rotation_translation(cos: i64, sin: i64, t: Vec2) -> (r: Mat2d)
        ensures
            r == mat_rotation_translation(cos, sin, t),
    {
        Mat2d { xx: cos, xy: fx_neg(sin), yx: sin, yy: cos, tx: t.x, ty: t.y }
    }

    /// The affine composition of `self` after `o`.
    pub fn compose(self, o: Mat2d) -> (r: Mat2d)
        ensures
            r == mat_compose(self, o),
    {
        Mat2d {
            xx: fx_add(fx_mul(self.xx, o.xx), fx_mul(self.xy, o.yx)),
            xy: fx_add(fx_mul(self.xx, o.xy), fx_mul(self.xy, o.yy)),
            yx: fx_add(fx_mul(self.yx, o.xx), fx_mul(self.yy, o.yx)),
            yy: fx_add(fx_mul(self.yx, o.xy), fx_mul(self.yy, o.yy)),
            tx: fx_add(fx_add(fx_mul(self.xx, o.tx), fx_mul(self.xy, o.ty)), self.tx),
            ty: fx_add(fx_add(fx_mul(self.yx, o.tx), fx_mul(self.yy, o.ty)), self.ty),
        }
    }

    /// Apply `self` to the point `p`.
    pub fn transform_point(self, p: Vec2) -> (r: Vec2)
        ensures
            r == mat_apply(self, p),
    {
        Vec2 {
            x: fx_add(fx_add(fx_mul(self.xx, p.x), fx_mul(self.xy, p.y)), self.tx),
            y: fx_add(fx_add(fx_mul(self.yx, p.x), fx_mul(self.yy, p.y)), self.ty),
        }
    }
}

} // verus!
