//! Swept wall collisions: the pairwise cast test and the resolution
//! stage over the store.

use glimpse_physics::components::{Position, Shape, Velocity, WallSensor};
use glimpse_physics::errors::PhysicsError;
use glimpse_physics::fx::{MU, SCALE};
use glimpse_physics::pipeline::apply_velocity;
use glimpse_physics::sweep::{handle_wall_collisions, rectangles_casted_collision, ContactDir};
use glimpse_physics::vec2::Vec2;
use glimpse_physics::world::{EntityData, World};

fn v(x: i64, y: i64) -> Vec2 {
    Vec2 { x, y }
}

#[test]
fn cast_test_reports_the_imminent_axis() {
    // A unit square just above a wide slab, falling at 10 units per
    // second: the gap of 0.03 closes within one tick, from above.
    let col_ul = v(0, 2 * SCALE + 300_000);
    let col_size = v(SCALE, SCALE);
    let falling = v(0, -10 * SCALE);
    let wall_ul = v(-5 * SCALE, SCALE);
    let wall_size = v(10 * SCALE, SCALE);
    let still = v(0, 0);
    let r = rectangles_casted_collision(&col_ul, &col_size, &falling, &wall_ul, &wall_size, &still);
    assert_eq!(r, Ok(Some(ContactDir::Down)));
}

#[test]
fn cast_test_reports_nothing_when_the_gap_stays_open() {
    // The same square far above the slab: no contact this tick.
    let col_ul = v(0, 5 * SCALE);
    let col_size = v(SCALE, SCALE);
    let falling = v(0, -10 * SCALE);
    let wall_ul = v(-5 * SCALE, SCALE);
    let wall_size = v(10 * SCALE, SCALE);
    let still = v(0, 0);
    let r = rectangles_casted_collision(&col_ul, &col_size, &falling, &wall_ul, &wall_size, &still);
    assert_eq!(r, Ok(None));
}

#[test]
fn coincident_rectangles_have_no_contact_axis() {
    // Two rectangles already on top of each other overlap when cast, yet
    // neither axis separated them before the motion: the unexplainable
    // overlap is a fatal logic error, not a silent approximation.
    let ul = v(0, SCALE);
    let size = v(SCALE, SCALE);
    let still = v(0, 0);
    let r = rectangles_casted_collision(&ul, &size, &still, &ul, &size, &still);
    assert_eq!(r, Err(PhysicsError::NoContactAxis));
}

fn falling_collider(x: i64, y: i64, size: Vec2, vy: i64) -> EntityData {
    let mut e = EntityData::empty();
    e.position = Some(Position(v(x, y)));
    e.shape = Some(Shape::Rect(size));
    e.velocity = Some(Velocity(v(0, vy)));
    e.wall_sensor = Some(WallSensor { left: false, right: false, down: false });
    e.wall_collider = true;
    e
}

fn slab(x: i64, y: i64, size: Vec2) -> EntityData {
    let mut e = EntityData::empty();
    e.position = Some(Position(v(x, y)));
    e.shape = Some(Shape::Rect(size));
    e.wall = true;
    e
}

#[test]
fn falling_collider_stops_on_the_wall() {
    // A unit square at (0, 5) falls at 10 units per second onto a slab
    // of size (10, 1) at the origin.  In the tick in which the gap
    // closes, the vertical velocity is zeroed, the down sensor is
    // raised, and the position is snapped flush onto the wall surface
    // plus the small resting gap.
    let mut w = World::new();
    let col = w.spawn(falling_collider(0, 5 * SCALE, v(SCALE, SCALE), -10 * SCALE));
    let _wall = w.spawn(slab(0, 0, v(10 * SCALE, SCALE)));
    let mut stopped = false;
    for _ in 0..500 {
        handle_wall_collisions(&mut w).unwrap();
        if w.entity(col).velocity.unwrap().0.y == 0 {
            stopped = true;
            break;
        }
        apply_velocity(&mut w);
    }
    assert!(stopped);
    let pos = w.entity(col).position.unwrap();
    let sensor = w.entity(col).wall_sensor.unwrap();
    // wall top + half the collider height + the resting gap.
    assert_eq!(pos.0.y, SCALE + MU);
    assert_eq!(pos.0.x, 0);
    assert!(sensor.down);
    assert!(!sensor.left);
    assert!(!sensor.right);
}

#[test]
fn sensors_are_recomputed_every_tick() {
    // Once the collider rests on the wall, a later run keeps reporting
    // the contact; with the wall gone from reach, the flags clear.
    let mut w = World::new();
    let col = w.spawn(falling_collider(0, SCALE + MU, v(SCALE, SCALE), -10 * SCALE));
    let _wall = w.spawn(slab(0, 0, v(10 * SCALE, SCALE)));
    handle_wall_collisions(&mut w).unwrap();
    assert!(w.entity(col).wall_sensor.unwrap().down);
    // Move the collider far away; the next run clears the flag.
    w.entities[col].position = Some(Position(v(0, 50 * SCALE)));
    handle_wall_collisions(&mut w).unwrap();
    assert!(!w.entity(col).wall_sensor.unwrap().down);
}

#[test]
fn sideways_contact_raises_the_side_sensor() {
    // A square left of a tall wall, moving right: the contact is on the
    // collider's right side.
    let mut w = World::new();
    let mut e = falling_collider(0, 0, v(SCALE, SCALE), 0);
    e.position = Some(Position(v(-2 * SCALE, 0)));
    e.velocity = Some(Velocity(v(10 * SCALE, 0)));
    let col = w.spawn(e);
    let _wall = w.spawn(slab(0, 0, v(SCALE, 10 * SCALE)));
    let mut stopped = false;
    for _ in 0..500 {
        handle_wall_collisions(&mut w).unwrap();
        if w.entity(col).velocity.unwrap().0.x == 0 {
            stopped = true;
            break;
        }
        apply_velocity(&mut w);
    }
    assert!(stopped);
    let sensor = w.entity(col).wall_sensor.unwrap();
    assert!(sensor.right);
    assert!(!sensor.down);
    let pos = w.entity(col).position.unwrap();
    assert_eq!(pos.0.x, -(SCALE + MU));
}

#[test]
fn non_rectangular_wall_pair_is_fatal() {
    let mut w = World::new();
    let mut e = falling_collider(0, 2 * SCALE, v(SCALE, SCALE), -10 * SCALE);
    e.shape = Some(Shape::Circle(SCALE));
    let col = w.spawn(e);
    let wall = w.spawn(slab(0, 0, v(10 * SCALE, SCALE)));
    let r = handle_wall_collisions(&mut w);
    assert_eq!(r, Err(PhysicsError::UnhandledWallShape { collider: col, wall }));
}
