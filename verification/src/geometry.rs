//! Pairwise shape-overlap tests.
//!
//! Rectangles are described by their upper-left corner and size, in a
//! coordinate system whose y axis points up.  Distance comparisons are
//! made on squared distances, so no square root is needed, and all
//! comparisons are computed on double-width integers.

use vstd::prelude::*;
use vstd::math::abs;
use crate::fx::{fx_add, fx_mul, mul_sat, sat64, wide_mul, HALF};
use crate::trig::{cos_spec, from_angle, sin_spec};
use crate::vec2::{dot_spec, v2_minus, v2_perp, v2_plus, v2_scaled, Vec2};

verus! {

/// Whether two axis-aligned rectangles, given by upper-left corner and
/// size, overlap (touching edges count as overlap).
pub open spec fn aabb_overlap(p1: Vec2, s1: Vec2, p2: Vec2, s2: Vec2) -> bool {
    &&& p1.x <= p2.x + s2.x
    &&& p1.x + s1.x >= p2.x
    &&& p1.y >= p2.y - s2.y
    &&& p1.y - s1.y <= p2.y
}

/// Axis-aligned overlap test between two rectangles given by their
/// upper-left corners and sizes.
pub fn aabb_collision(pos1: &Vec2, size1: &Vec2, pos2: &Vec2, size2: &Vec2) -> (r: bool)
    ensures
        r == aabb_overlap(*pos1, *size1, *pos2, *size2),
{
    (pos1.x as i128) <= (pos2.x as i128) + (size2.x as i128)
        && (pos1.x as i128) + (size1.x as i128) >= (pos2.x as i128)
        && (pos1.y as i128) >= (pos2.y as i128) - (size2.y as i128)
        && (pos1.y as i128) - (size1.y as i128) <= (pos2.y as i128)
}

/// Whether two circles overlap: their centre distance is below the sum of
/// their radii.  Stated on squared distances; a non-positive radius sum
/// never overlaps.
pub open spec fn circles_overlap(p1: Vec2, r1: i64, p2: Vec2, r2: i64) -> bool {
    let dx = sat64(p1.x - p2.x);
    let dy = sat64(p1.y - p2.y);
    let rs = sat64(r1 + r2);
    rs > 0 && dx * dx + dy * dy < rs * rs
}

/// Overlap test between two circles given by centre and radius.
pub fn circles_collision(pos1: &Vec2, radius1: &i64, pos2: &Vec2, radius2: &i64) -> (r: bool)
    ensures
        r == circles_overlap(*pos1, *radius1, *pos2, *radius2),
{
    let rs = fx_add(*radius1, *radius2);
    if rs <= 0 {
        return false;
    }
    let dx = clamp_wide(pos1.x as i128 - pos2.x as i128);
    let dy = clamp_wide(pos1.y as i128 - pos2.y as i128);
    let d2 = square(dx) + square(dy);
    d2 < square(rs)
}

/// The point of the axis-aligned rectangle closest to the circle centre
/// on the x axis, where the centre lies strictly outside the rectangle's
/// horizontal extent.
pub open spec fn closest_x(rp: Vec2, s: Vec2, cp: Vec2) -> Option<int> {
    if rp.x > cp.x {
        Some(rp.x as int)
    } else if rp.x + s.x < cp.x {
        Some(sat64(rp.x + s.x))
    } else {
        None
    }
}

/// As `closest_x`, for the vertical extent.
pub open spec fn closest_y(rp: Vec2, s: Vec2, cp: Vec2) -> Option<int> {
    if rp.y < cp.y {
        Some(rp.y as int)
    } else if rp.y - s.y > cp.y {
        Some(sat64(rp.y - s.y))
    } else {
        None
    }
}

/// Whether an axis-aligned rectangle (upper-left corner and size) and a
/// circle overlap: the circle centre is clamped into the rectangle's
/// extents, and the distance from the clamped point to the centre is
/// compared with the radius.  A centre whose projection lies inside one
/// extent is compared on the remaining axis alone; inside both extents
/// is always an overlap.
pub open spec fn aabb_circle_overlap(rp: Vec2, s: Vec2, cp: Vec2, radius: i64) -> bool {
    match (closest_x(rp, s, cp), closest_y(rp, s, cp)) {
        (Some(x), Some(y)) => {
            let dx = sat64(x - cp.x);
            let dy = sat64(y - cp.y);
            radius > 0 && dx * dx + dy * dy < (radius as int) * (radius as int)
        },
        (Some(x), None) => abs(x - cp.x) < radius,
        (None, Some(y)) => abs(y - cp.y) < radius,
        (None, None) => true,
    }
}

/// Overlap test between an axis-aligned rectangle and a circle.
pub fn aabb_circle_collision(rect_pos: &Vec2, size: &Vec2, circ_pos: &Vec2, radius: i64)
    -> (r: bool)
    ensures
        r == aabb_circle_overlap(*rect_pos, *size, *circ_pos, radius),
{
    let x_loc: Option<i64> = if rect_pos.x > circ_pos.x {
        Some(rect_pos.x)
    } else if (rect_pos.x as i128) + (size.x as i128) < circ_pos.x as i128 {
        Some(clamp_wide(rect_pos.x as i128 + size.x as i128))
    } else {
        None
    };
    let y_loc: Option<i64> = if rect_pos.y < circ_pos.y {
        Some(rect_pos.y)
    } else if (rect_pos.y as i128) - (size.y as i128) > circ_pos.y as i128 {
        Some(clamp_wide(rect_pos.y as i128 - size.y as i128))
    } else {
        None
    };
    match (x_loc, y_loc) {
        (Some(x), Some(y)) => {
            if radius <= 0 {
                false
            } else {
                let dx = clamp_wide(x as i128 - circ_pos.x as i128);
                let dy = clamp_wide(y as i128 - circ_pos.y as i128);
                square(dx) + square(dy) < square(radius)
            }
        },
        (Some(x), None) => {
            let d = x as i128 - circ_pos.x as i128;
            let d = if d >= 0 { d } else { -d };
            d < radius as i128
        },
        (None, Some(y)) => {
            let d = y as i128 - circ_pos.y as i128;
            let d = if d >= 0 { d } else { -d };
            d < radius as i128
        },
        (None, None) => true,
    }
}

/// The candidate separating axes of a polygon: the perpendicular of each
/// edge, edge `i` running from corner `i` to corner `i + 1` (wrapping).
/// The axes are left unnormalised; scaling an axis scales both shapes'
/// projections alike, so the separation decision is unchanged.
pub open spec fn axes_spec(ps: Seq<Vec2>) -> Seq<Vec2> {
    Seq::new(ps.len(), |i: int| v2_perp(v2_minus(ps[i], ps[(i + 1) % (ps.len() as int)])))
}

/// The perpendiculars of a polygon's edges, the candidate separating
/// axes of the separating-axis test.
pub fn get_axes(points: &Vec<Vec2>) -> (r: Vec<Vec2>)
    requires
        points@.len() > 0,
    ensures
        r@ == axes_spec(points@),
{
    let n = points.len();
    let mut norms: Vec<Vec2> = Vec::new();
    let mut i: usize = 0;
    while i < n
        invariant
            i <= n,
            n == points@.len(),
            n > 0,
            norms@.len() == i,
            forall|j: int| 0 <= j < i ==> norms@[j] == axes_spec(points@)[j],
        decreases n - i,
    {
        let next = points[i].minus(points[(i + 1) % n]);
        norms.push(next.perp());
        i = i + 1;
    }
    proof {
        assert(norms@ =~= axes_spec(points@));
    }
    norms
}

/// The least dot product of the axis with the first `n` corner points.
pub open spec fn proj_min(ps: Seq<Vec2>, axis: Vec2, n: int) -> int
    decreases n,
{
    if n <= 1 {
        dot_spec(axis, ps[0])
    } else {
        let prev = proj_min(ps, axis, n - 1);
        let v = dot_spec(axis, ps[n - 1]);
        if v < prev {
            v
        } else {
            prev
        }
    }
}

/// The greatest dot product of the axis with the first `n` corner points.
pub open spec fn proj_max(ps: Seq<Vec2>, axis: Vec2, n: int) -> int
    decreases n,
{
    if n <= 1 {
        dot_spec(axis, ps[0])
    } else {
        let prev = proj_max(ps, axis, n - 1);
        let v = dot_spec(axis, ps[n - 1]);
        if v > prev {
            v
        } else {
            prev
        }
    }
}

/// Project a polygon onto an axis: the interval, as (least, greatest) dot
/// product of the axis with the corner points.
pub fn project_shape(points: &Vec<Vec2>, axis: &Vec2) -> (r: (i64, i64))
    requires
        points@.len() > 0,
    ensures
        r.0 as int == proj_min(points@, *axis, points@.len() as int),
        r.1 as int == proj_max(points@, *axis, points@.len() as int),
{
    let n = points.len();
    let mut min: i64 = axis.dot(points[0]);
    let mut max: i64 = min;
    let mut i: usize = 1;
    while i < n
        invariant
            1 <= i <= n,
            n == points@.len(),
            min as int == proj_min(points@, *axis, i as int),
            max as int == proj_max(points@, *axis, i as int),
        decreases n - i,
    {
        let val = axis.dot(points[i]);
        if val < min {
            min = val;
        } else if val > max {
            max = val;
        }
        i = i + 1;
    }
    (min, max)
}

/// Whether the axis separates the two polygons: their projection
/// intervals onto it do not overlap.
pub open spec fn axis_separates(ps1: Seq<Vec2>, ps2: Seq<Vec2>, axis: Vec2) -> bool {
    proj_max(ps1, axis, ps1.len() as int) < proj_min(ps2, axis, ps2.len() as int)
        || proj_max(ps2, axis, ps2.len() as int) < proj_min(ps1, axis, ps1.len() as int)
}

/// The separating-axis outcome: the polygons collide unless some face
/// axis of either polygon separates their projections.
pub open spec fn sat_hit(ps1: Seq<Vec2>, ps2: Seq<Vec2>) -> bool {
    &&& forall|i: int| 0 <= i < ps1.len() ==> !axis_separates(ps1, ps2, axes_spec(ps1)[i])
    &&& forall|i: int| 0 <= i < ps2.len() ==> !axis_separates(ps1, ps2, axes_spec(ps2)[i])
}

/// Separating-axis collision test between two convex polygons given by
/// their corner points: reports no collision exactly when some face axis
/// of either polygon separates the projection intervals.
pub fn sat_collision(points1: Vec<Vec2>, points2: Vec<Vec2>) -> (r: bool)
    requires
        points1@.len() > 0,
        points2@.len() > 0,
    ensures
        r == sat_hit(points1@, points2@),
{
    let axes = get_axes(&points1);
    let n1 = axes.len();
    let mut i: usize = 0;
    while i < n1
        invariant
            i <= n1,
            n1 == points1@.len(),
            points1@.len() > 0,
            points2@.len() > 0,
            axes@ == axes_spec(points1@),
            forall|j: int| 0 <= j < i ==> !axis_separates(points1@, points2@, axes_spec(points1@)[j]),
        decreases n1 - i,
    {
        let axis = axes[i];
        let range1 = project_shape(&points1, &axis);
        let range2 = project_shape(&points2, &axis);
        if range1.1 < range2.0 || range2.1 < range1.0 {
            assert(axis_separates(points1@, points2@, axes_spec(points1@)[i as int]));
            return false;
        }
        i = i + 1;
    }
    let axes = get_axes(&points2);
    let n2 = axes.len();
    let mut i: usize = 0;
    while i < n2
        invariant
            i <= n2,
            n2 == points2@.len(),
            points1@.len() > 0,
            points2@.len() > 0,
            axes@ == axes_spec(points2@),
            forall|j: int| 0 <= j < points1@.len()
                ==> !axis_separates(points1@, points2@, axes_spec(points1@)[j]),
            forall|j: int| 0 <= j < i ==> !axis_separates(points1@, points2@, axes_spec(points2@)[j]),
        decreases n2 - i,
    {
        let axis = axes[i];
        let range1 = project_shape(&points1, &axis);
        let range2 = project_shape(&points2, &axis);
        if range1.1 < range2.0 || range2.1 < range1.0 {
            assert(axis_separates(points1@, points2@, axes_spec(points2@)[i as int]));
            return false;
        }
        i = i + 1;
    }
    true
}

/// The four corner points of a rectangle with the given centre, size and
/// rotation: the centre offset by plus and minus half the size along the
/// rotated horizontal and vertical directions.
pub open spec fn rect_points(pos: Vec2, size: Vec2, angle: int) -> Seq<Vec2> {
    let dir = Vec2 { x: cos_spec(angle) as i64, y: sin_spec(angle) as i64 };
    let h = v2_scaled(dir, mul_sat(size.x as int, HALF as int));
    let v = v2_scaled(v2_perp(dir), mul_sat(size.y as int, HALF as int));
    seq![
        v2_plus(v2_minus(pos, h), v),
        v2_plus(v2_plus(pos, h), v),
        v2_minus(v2_plus(pos, h), v),
        v2_minus(v2_minus(pos, h), v),
    ]
}

/// The corner points of a rotated rectangle given by centre, size and
/// angle.
pub fn generate_rectangle_points(pos: &Vec2, size: &Vec2, angle: i64) -> (r: Vec<Vec2>)
    ensures
        r@ == rect_points(*pos, *size, angle as int),
        r@.len() == 4,
{
    let dir = from_angle(angle);
    let h = dir.scaled(fx_mul(size.x, HALF));
    let v = dir.perp().scaled(fx_mul(size.y, HALF));
    let mut out: Vec<Vec2> = Vec::new();
    out.push(pos.minus(h).plus(v));
    out.push(pos.plus(h).plus(v));
    out.push(pos.plus(h).minus(v));
    out.push(pos.minus(h).minus(v));
    proof {
        assert(out@ =~= rect_points(*pos, *size, angle as int));
    }
    out
}

/// Clamp a double-width intermediate into the symmetric `i64` range.
fn clamp_wide(x: i128) -> (r: i64)
    ensures
        r as int == sat64(x as int),
{
    if x > i64::MAX as i128 {
        i64::MAX
    } else if x < -(i64::MAX as i128) {
        -i64::MAX
    } else {
        x as i64
    }
}

/// The exact square of a value in the symmetric `i64` range.
fn square(a: i64) -> (r: i128)
    requires
        -i64::MAX <= a,
    ensures
        r as int == (a as int) * (a as int),
        0 <= r as int <= (i64::MAX as int) * (i64::MAX as int),
{
    proof {
        assert(0 <= (a as int) * (a as int) <= (i64::MAX as int) * (i64::MAX as int))
            by (nonlinear_arith)
            requires
                -(i64::MAX as int) <= a as int <= i64::MAX as int,
        ;
    }
    wide_mul(a, a)
}

} // verus!
