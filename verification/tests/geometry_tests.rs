//! Shape overlap tests: axis-aligned rectangles, circles, the clamped
//! rectangle-against-circle test and the separating-axis test.

use glimpse_physics::components::Shape;
use glimpse_physics::fx::SCALE;
use glimpse_physics::geometry::{
    aabb_circle_collision, aabb_collision, circles_collision, generate_rectangle_points,
    project_shape, sat_collision,
};
use glimpse_physics::narrow::{detect_collision_pair, Detection};
use glimpse_physics::trig::PI_FX;
use glimpse_physics::vec2::Vec2;

fn v(x: i64, y: i64) -> Vec2 {
    Vec2 { x: x * SCALE, y: y * SCALE }
}

#[test]
fn aabb_overlap_and_separation() {
    // A rectangle at (0,0) of size (2,2) overlaps one at (1,1) of the
    // same size; moved to (3,3) they no longer overlap.
    let size = v(2, 2);
    assert!(aabb_collision(&v(0, 0), &size, &v(1, 1), &size));
    assert!(!aabb_collision(&v(0, 0), &size, &v(3, 3), &size));
}

#[test]
fn circles_compare_distance_with_radius_sum() {
    // Centres 1.5 apart: radii 1.0 + 0.4 do not reach, 1.0 + 0.6 do.
    let c1 = v(0, 0);
    let c2 = Vec2 { x: 15_000_000, y: 0 };
    assert!(!circles_collision(&c1, &SCALE, &c2, &4_000_000));
    assert!(circles_collision(&c1, &SCALE, &c2, &6_000_000));
    // Touching circles do not count as colliding.
    assert!(!circles_collision(&c1, &SCALE, &Vec2 { x: 2 * SCALE, y: 0 }, &SCALE));
}

#[test]
fn rectangle_against_circle_clamps_the_centre() {
    // Rectangle with upper-left corner (0, 0), size (2, 2); y points up,
    // so it spans x in [0, 2] and y in [-2, 0].
    let rp = v(0, 0);
    let size = v(2, 2);
    // Circle left of the rectangle, within reach on the x axis alone.
    assert!(aabb_circle_collision(&rp, &size, &Vec2 { x: -5_000_000, y: -SCALE }, SCALE));
    // The same circle, too far away.
    assert!(!aabb_circle_collision(&rp, &size, &v(-2, -1), SCALE));
    // A circle near the upper-left corner: distance to the corner decides.
    assert!(aabb_circle_collision(
        &rp,
        &size,
        &Vec2 { x: -5_000_000, y: 5_000_000 },
        8_000_000,
    ));
    assert!(!aabb_circle_collision(
        &rp,
        &size,
        &Vec2 { x: -5_000_000, y: 5_000_000 },
        7_000_000,
    ));
    // A centre inside both extents is always a hit.
    assert!(aabb_circle_collision(&rp, &size, &Vec2 { x: SCALE, y: -SCALE }, 1));
}

#[test]
fn projections_give_the_interval() {
    let points = generate_rectangle_points(&v(0, 0), &v(2, 2), 0);
    let axis = Vec2 { x: SCALE, y: 0 };
    let (min, max) = project_shape(&points, &axis);
    assert_eq!(min, -SCALE);
    assert_eq!(max, SCALE);
}

#[test]
fn separating_axis_detects_rotated_rectangles() {
    // A rectangle rotated by a quarter of pi against an axis-aligned one:
    // clearly overlapping and clearly separated placements.
    let tilted = generate_rectangle_points(&v(0, 0), &v(2, 2), PI_FX / 4);
    let near = generate_rectangle_points(&v(1, 0), &v(2, 2), 0);
    let far = generate_rectangle_points(&v(5, 0), &v(2, 2), 0);
    assert!(sat_collision(tilted.clone(), near));
    assert!(!sat_collision(tilted, far));
}

#[test]
fn detector_dispatches_on_shape_pairs() {
    // Axis-aligned rectangles use the fast test.
    let r = detect_collision_pair(
        &v(0, 0),
        &Shape::Rect(v(2, 2)),
        0,
        &v(1, 1),
        &Shape::Rect(v(2, 2)),
        0,
    );
    assert_eq!(r, Detection::Hit);
    // Circles compare centre distance.
    let r = detect_collision_pair(
        &v(0, 0),
        &Shape::Circle(SCALE),
        0,
        &v(3, 0),
        &Shape::Circle(SCALE),
        0,
    );
    assert_eq!(r, Detection::Miss);
    // A circle against a rotated rectangle is a known gap.
    let r = detect_collision_pair(
        &v(0, 0),
        &Shape::Circle(SCALE),
        0,
        &v(0, 0),
        &Shape::Rect(v(2, 2)),
        PI_FX / 4,
    );
    assert_eq!(r, Detection::Unsupported);
    // Anything involving a polygon is a known gap.
    let poly = Shape::Poly(vec![v(0, 0), v(1, 0), v(0, 1)]);
    let r = detect_collision_pair(&v(0, 0), &poly, 0, &v(0, 0), &Shape::Circle(SCALE), 0);
    assert_eq!(r, Detection::Unsupported);
}
