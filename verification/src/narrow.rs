//! Narrow-phase pairwise collision detection.
//!
//! Every unordered pair of collider entities with a shape and a global
//! transform is tested shape against shape.  The stage only detects and
//! reports; it changes no position or velocity.  Shape pairs the core
//! deliberately does not implement (a circle against a rotated rectangle,
//! and anything involving a polygon) are reported as an explicit
//! unsupported outcome, which counts as no collision but is not silently
//! dropped.

use vstd::prelude::*;
use vstd::math::abs;
use crate::components::Shape;
use crate::fx::{fx_abs, MU};
use crate::geometry::{
    aabb_circle_collision, aabb_circle_overlap, aabb_collision, aabb_overlap, circles_collision,
    circles_overlap, generate_rectangle_points, rect_points, sat_collision, sat_hit,
};
use crate::vec2::Vec2;
use crate::world::{EntityData, World};

verus! {

/// The outcome of one pairwise shape test.
#[derive(Clone, Copy, PartialEq, Eq, Structural, Debug)]
pub enum Detection {
    /// The shapes overlap.
    Hit,
    /// The shapes do not overlap.
    Miss,
    /// The shape pair is outside what the detector implements; treated
    /// as no collision, but reported as the known gap it is.
    Unsupported,
}

/// What the detector reports for two placed shapes.  Rectangle pairs use
/// the fast axis-aligned test when both rotations are within the rest
/// threshold of zero and the separating-axis test otherwise; circle
/// pairs compare centre distance with the radius sum; an axis-aligned
/// rectangle against a circle clamps the centre into the rectangle.  A
/// rotated rectangle against a circle, and every pair involving a
/// polygon, is unsupported.
pub open spec fn detect_spec(
    pos1: Vec2, shape1: Shape, angle1: i64, pos2: Vec2, shape2: Shape, angle2: i64,
) -> Detection {
    match (shape1, shape2) {
        (Shape::Rect(s1), Shape::Rect(s2)) => {
            if abs(angle1 as int) < MU && abs(angle2 as int) < MU {
                if aabb_overlap(pos1, s1, pos2, s2) {
                    Detection::Hit
                } else {
                    Detection::Miss
                }
            } else {
                if sat_hit(
                    rect_points(pos1, s1, angle1 as int),
                    rect_points(pos2, s2, angle2 as int),
                ) {
                    Detection::Hit
                } else {
                    Detection::Miss
                }
            }
        },
        (Shape::Circle(r1), Shape::Circle(r2)) => {
            if circles_overlap(pos1, r1, pos2, r2) {
                Detection::Hit
            } else {
                Detection::Miss
            }
        },
        (Shape::Circle(radius), Shape::Rect(s)) => {
            if abs(angle2 as int) < MU {
                if aabb_circle_overlap(pos2, s, pos1, radius) {
                    Detection::Hit
                } else {
                    Detection::Miss
                }
            } else {
                Detection::Unsupported
            }
        },
        (Shape::Rect(s), Shape::Circle(radius)) => {
            if abs(angle1 as int) < MU {
                if aabb_circle_overlap(pos1, s, pos2, radius) {
                    Detection::Hit
                } else {
                    Detection::Miss
                }
            } else {
                Detection::Unsupported
            }
        },
        _ => Detection::Unsupported,
    }
}

/// Dispatch one pair of placed shapes to the matching overlap test.
pub fn detect_collision_pair(
    pos1: &Vec2, shape1: &Shape, angle1: i64, pos2: &Vec2, shape2: &Shape, angle2: i64,
) -> (r: Detection)
    ensures
        r == detect_spec(*pos1, *shape1, angle1, *pos2, *shape2, angle2),
{
    match (shape1, shape2) {
        (Shape::Rect(s1), Shape::Rect(s2)) => {
            if fx_abs(angle1) < MU && fx_abs(angle2) < MU {
                if aabb_collision(pos1, s1, pos2, s2) {
                    Detection::Hit
                } else {
                    Detection::Miss
                }
            } else {
                let points1 = generate_rectangle_points(pos1, s1, angle1);
                let points2 = generate_rectangle_points(pos2, s2, angle2);
                if sat_collision(points1, points2) {
                    Detection::Hit
                } else {
                    Detection::Miss
                }
            }
        },
        (Shape::Circle(r1), Shape::Circle(r2)) => {
            if circles_collision(pos1, r1, pos2, r2) {
                Detection::Hit
            } else {
                Detection::Miss
            }
        },
        (Shape::Circle(radius), Shape::Rect(s)) => {
            if fx_abs(angle2) < MU {
                if aabb_circle_collision(pos2, s, pos1, *radius) {
                    Detection::Hit
                } else {
                    Detection::Miss
                }
            } else {
                Detection::Unsupported
            }
        },
        (Shape::Rect(s), Shape::Circle(radius)) => {
            if fx_abs(angle1) < MU {
                if aabb_circle_collision(pos1, s, pos2, *radius) {
                    Detection::Hit
                } else {
                    Detection::Miss
                }
            } else {
                Detection::Unsupported
            }
        },
        _ => Detection::Unsupported,
    }
}

/// An entity the narrow phase tests: a collider with a shape and a
/// cached global transform.
pub open spec fn is_narrow_entity(e: EntityData) -> bool {
    e.collider && e.shape is Some && e.global_position is Some && e.global_rotation is Some
}

/// The detector's outcome for the entity pair `(i, j)`, each placed at
/// its own global position and rotation.
pub open spec fn pair_detect(s: Seq<EntityData>, i: int, j: int) -> Detection {
    detect_spec(
        (s[i].global_position->0).0,
        s[i].shape->0,
        (s[i].global_rotation->0).0,
        (s[j].global_position->0).0,
        s[j].shape->0,
        (s[j].global_rotation->0).0,
    )
}

/// The reported entries for pairs `(i, k)` with `i < k < j`, in order of
/// `k`: every such pair of narrow-phase entities whose outcome is not a
/// miss.
pub open spec fn narrow_row(s: Seq<EntityData>, i: int, j: int) -> Seq<(usize, usize, Detection)>
    decreases j - i,
{
    if j <= i + 1 {
        Seq::empty()
    } else {
        let prior = narrow_row(s, i, j - 1);
        if is_narrow_entity(s[i]) && is_narrow_entity(s[j - 1])
            && pair_detect(s, i, j - 1) != Detection::Miss {
            prior.push((i as usize, (j - 1) as usize, pair_detect(s, i, j - 1)))
        } else {
            prior
        }
    }
}

/// The reported entries for all pairs whose first entity is below `i`,
/// in order of the first entity, then the second.
pub open spec fn narrow_report(s: Seq<EntityData>, i: int) -> Seq<(usize, usize, Detection)>
    decreases i,
{
    if i <= 0 {
        Seq::empty()
    } else {
        narrow_report(s, i - 1) + narrow_row(s, i - 1, s.len() as int)
    }
}

/// Test every unordered pair of collider entities at their global
/// transforms and report each pair that is a hit or an unsupported shape
/// combination, in index order.
pub fn narrow_phase(w: &World) -> (r: Vec<(usize, usize, Detection)>)
    ensures
        r@ == narrow_report(w@, w@.len() as int),
{
    let n = w.entities.len();
    let mut out: Vec<(usize, usize, Detection)> = Vec::new();
    let mut i: usize = 0;
    while i < n
        invariant
            i <= n,
            n == w@.len(),
            out@ == narrow_report(w@, i as int),
        decreases n - i,
    {
        let first_ok = w.entities[i].collider && w.entities[i].shape.is_some()
            && w.entities[i].global_position.is_some() && w.entities[i].global_rotation.is_some();
        proof {
            assert(narrow_row(w@, i as int, i + 1 as int) =~= Seq::<(usize, usize, Detection)>::empty());
            assert(narrow_report(w@, i as int) + narrow_row(w@, i as int, i + 1 as int)
                =~= narrow_report(w@, i as int));
        }
        let mut j: usize = i + 1;
        while j < n
            invariant
                i < j <= n,
                i < n,
                n == w@.len(),
                first_ok == is_narrow_entity(w@[i as int]),
                out@ == narrow_report(w@, i as int) + narrow_row(w@, i as int, j as int),
            decreases n - j,
        {
            let second_ok = w.entities[j].collider && w.entities[j].shape.is_some()
                && w.entities[j].global_position.is_some()
                && w.entities[j].global_rotation.is_some();
            if first_ok && second_ok {
                let p1 = w.entities[i].global_position.unwrap().0;
                let a1 = w.entities[i].global_rotation.unwrap().0;
                let p2 = w.entities[j].global_position.unwrap().0;
                let a2 = w.entities[j].global_rotation.unwrap().0;
                let det = match (&w.entities[i].shape, &w.entities[j].shape) {
                    (Some(sh1), Some(sh2)) => detect_collision_pair(&p1, sh1, a1, &p2, sh2, a2),
                    _ => Detection::Unsupported,
                };
                if !matches!(det, Detection::Miss) {
                    out.push((i, j, det));
                }
            }
            j = j + 1;
            proof {
                assert(out@ =~= narrow_report(w@, i as int) + narrow_row(w@, i as int, j as int));
            }
        }
        i = i + 1;
    }
    out
}

} // verus!
