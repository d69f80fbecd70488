//! The narrow-phase stage over the store, and one full tick.

use glimpse_physics::components::{
    Acceleration, GlobalPosition, GlobalRotation, Position, Rotation, Shape, TwoDimTrans, Velocity,
};
use glimpse_physics::entities::GameWorldInfo;
use glimpse_physics::errors::PhysicsError;
use glimpse_physics::fx::SCALE;
use glimpse_physics::mat::Mat2d;
use glimpse_physics::narrow::{narrow_phase, Detection};
use glimpse_physics::schedule::run_tick;
use glimpse_physics::vec2::Vec2;
use glimpse_physics::world::{EntityData, World};

fn collider_at(x: i64, y: i64, shape: Shape) -> EntityData {
    let mut e = EntityData::empty();
    e.position = Some(Position(Vec2 { x, y }));
    e.rotation = Some(Rotation(0));
    e.shape = Some(shape);
    e.global_position = Some(GlobalPosition(Vec2 { x, y }));
    e.global_rotation = Some(GlobalRotation(0));
    e.collider = true;
    e
}

#[test]
fn overlapping_pair_is_reported() {
    let mut w = World::new();
    let a = w.spawn(collider_at(0, 0, Shape::Circle(SCALE)));
    let b = w.spawn(collider_at(SCALE, 0, Shape::Circle(SCALE)));
    let _far = w.spawn(collider_at(9 * SCALE, 0, Shape::Circle(SCALE)));
    let report = narrow_phase(&w);
    assert_eq!(report.len(), 1);
    assert_eq!(report[0], (a, b, Detection::Hit));
}

#[test]
fn non_colliders_are_ignored() {
    let mut w = World::new();
    let mut e = collider_at(0, 0, Shape::Circle(SCALE));
    e.collider = false;
    w.spawn(e);
    w.spawn(collider_at(SCALE, 0, Shape::Circle(SCALE)));
    let report = narrow_phase(&w);
    assert_eq!(report.len(), 0);
}

#[test]
fn unsupported_pairs_are_reported_as_the_gap_they_are() {
    let mut w = World::new();
    let a = w.spawn(collider_at(0, 0, Shape::Poly(vec![Vec2 { x: 0, y: 0 }])));
    let b = w.spawn(collider_at(0, 0, Shape::Circle(SCALE)));
    let report = narrow_phase(&w);
    assert_eq!(report.len(), 1);
    assert_eq!(report[0], (a, b, Detection::Unsupported));
}

#[test]
fn a_tick_stops_on_the_first_stage_error() {
    let mut w = World::new();
    w.spawn(GameWorldInfo::new().into_entity());
    w.spawn(GameWorldInfo::new().into_entity());
    assert_eq!(run_tick(&mut w), Err(PhysicsError::MultipleWorldRoots));
}

#[test]
fn a_full_tick_runs_all_stages() {
    // A world with a root and a gravity-bound body: after one tick the
    // body has gained downward velocity, moved, had its acceleration
    // reset, and its global transform follows its position.
    let mut w = World::new();
    let root = w.spawn(GameWorldInfo::new().into_entity());
    let mut e = EntityData::empty();
    e.position = Some(Position(Vec2 { x: 0, y: 5 * SCALE }));
    e.rotation = Some(Rotation(0));
    e.velocity = Some(Velocity(Vec2 { x: 0, y: 0 }));
    e.acceleration = Some(Acceleration(Vec2 { x: 0, y: 0 }));
    e.transform = Some(TwoDimTrans(Mat2d::identity()));
    e.global_position = Some(GlobalPosition(Vec2 { x: 0, y: 0 }));
    e.global_rotation = Some(GlobalRotation(0));
    e.gravity = true;
    let body = w.spawn(e);
    w.push_child(root, body).unwrap();
    let report = run_tick(&mut w).unwrap();
    assert_eq!(report.len(), 0);
    let acc = w.entity(body).acceleration.unwrap();
    assert_eq!(acc.0.x, 0);
    assert_eq!(acc.0.y, 0);
    let vel = w.entity(body).velocity.unwrap();
    // One tick of gravity: -9.8 over a 300th of a second, truncated on
    // the fixed-point grid.
    assert_eq!(vel.0.y, -326_663);
    let pos = w.entity(body).position.unwrap();
    assert!(pos.0.y < 5 * SCALE);
    // Propagation cached the body's position as its global position.
    let gp = w.entity(body).global_position.unwrap();
    assert_eq!(gp.0.x, pos.0.x);
    assert_eq!(gp.0.y, pos.0.y);
}
