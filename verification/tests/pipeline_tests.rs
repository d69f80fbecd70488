//! Force accumulation, overrides and integration over the store.

use glimpse_physics::components::{
    Acceleration, AdjustAcceleration, Friction, OverrideVelocity, Position, Resistance, Velocity,
};
use glimpse_physics::fx::{MU, SCALE};
use glimpse_physics::pipeline::{
    apply_accel, apply_acceleration_adjustments, apply_friction, apply_gravity, apply_resistance,
    apply_velocity, apply_velocity_override, GRAVITY_Y,
};
use glimpse_physics::vec2::Vec2;
use glimpse_physics::world::{EntityData, World};

fn moving_entity(vx: i64, vy: i64) -> EntityData {
    let mut e = EntityData::empty();
    e.position = Some(Position(Vec2 { x: 0, y: 0 }));
    e.velocity = Some(Velocity(Vec2 { x: vx, y: vy }));
    e.acceleration = Some(Acceleration(Vec2 { x: 0, y: 0 }));
    e
}

#[test]
fn gravity_adds_the_constant_vector() {
    let mut w = World::new();
    let mut e = moving_entity(0, 0);
    e.gravity = true;
    let id = w.spawn(e);
    apply_gravity(&mut w);
    let acc = w.entity(id).acceleration.unwrap();
    assert_eq!(acc.0.x, 0);
    assert_eq!(acc.0.y, GRAVITY_Y);
}

#[test]
fn adjustments_accumulate_into_acceleration() {
    let mut w = World::new();
    let mut e = moving_entity(0, 0);
    e.adjust_acceleration = Some(AdjustAcceleration(Vec2 { x: 3 * SCALE, y: -SCALE }));
    let id = w.spawn(e);
    apply_acceleration_adjustments(&mut w);
    apply_acceleration_adjustments(&mut w);
    let acc = w.entity(id).acceleration.unwrap();
    // Adjustments are additive: two applications add twice.
    assert_eq!(acc.0.x, 6 * SCALE);
    assert_eq!(acc.0.y, -2 * SCALE);
}

#[test]
fn force_reset_after_integration() {
    // Accumulate gravity, adjustment, resistance and friction, then
    // integrate: the accumulator is exactly zero afterwards.
    let mut w = World::new();
    let mut e = moving_entity(5 * SCALE, 0);
    e.gravity = true;
    e.adjust_acceleration = Some(AdjustAcceleration(Vec2 { x: SCALE, y: 0 }));
    e.resistance = Some(Resistance(Vec2 { x: SCALE, y: SCALE / 20 }));
    e.friction = Some(Friction(Vec2 { x: 7 * SCALE, y: 0 }));
    let id = w.spawn(e);
    apply_acceleration_adjustments(&mut w);
    apply_gravity(&mut w);
    apply_resistance(&mut w);
    apply_friction(&mut w);
    let before = w.entity(id).acceleration.unwrap();
    assert!(before.0.x != 0 || before.0.y != 0);
    apply_accel(&mut w);
    let acc = w.entity(id).acceleration.unwrap();
    assert_eq!(acc.0.x, 0);
    assert_eq!(acc.0.y, 0);
    // The velocity picked the accumulated acceleration up.
    let vel = w.entity(id).velocity.unwrap();
    assert!(vel.0.x < 5 * SCALE);
    assert!(vel.0.y < 0);
}

#[test]
fn override_velocity_is_idempotent() {
    // Forcing x to 3.0 twice in the same tick leaves exactly 3.0, the
    // same as forcing it once: the override replaces, it never adds.
    let mut w = World::new();
    let mut e = moving_entity(SCALE, 2 * SCALE);
    e.override_velocity = Some(OverrideVelocity(Some(3 * SCALE), None));
    let id = w.spawn(e);
    apply_velocity_override(&mut w);
    let once = w.entity(id).velocity.unwrap();
    assert_eq!(once.0.x, 3 * SCALE);
    assert_eq!(once.0.y, 2 * SCALE);
    apply_velocity_override(&mut w);
    let twice = w.entity(id).velocity.unwrap();
    assert_eq!(twice.0.x, 3 * SCALE);
    assert_eq!(twice.0.y, 2 * SCALE);
}

#[test]
fn drag_decreases_speed_monotonically() {
    // Only resistance and friction act; starting from v = (5, 0) the
    // horizontal speed falls strictly every tick until it is small.
    let mut w = World::new();
    let mut e = moving_entity(5 * SCALE, 0);
    e.resistance = Some(Resistance(Vec2 { x: SCALE, y: 0 }));
    e.friction = Some(Friction(Vec2 { x: 7 * SCALE, y: 0 }));
    let id = w.spawn(e);
    let mut prev = 5 * SCALE;
    let mut ticks = 0;
    while prev > SCALE / 30 && ticks < 10_000 {
        apply_resistance(&mut w);
        apply_friction(&mut w);
        apply_accel(&mut w);
        let v = w.entity(id).velocity.unwrap().0.x;
        assert!(v < prev, "speed did not fall: {} -> {}", prev, v);
        assert!(v >= 0 || -v <= prev, "speed overshot: {} -> {}", prev, v);
        prev = v;
        ticks += 1;
    }
    assert!(ticks < 10_000);
}

#[test]
fn drag_leaves_a_resting_axis_alone() {
    // At or below the rest threshold neither drag nor friction acts, so
    // the axis never flips sign from residual noise.
    let mut w = World::new();
    let mut e = moving_entity(MU - 1, 0);
    e.resistance = Some(Resistance(Vec2 { x: SCALE, y: 0 }));
    e.friction = Some(Friction(Vec2 { x: 7 * SCALE, y: 0 }));
    let id = w.spawn(e);
    for _ in 0..50 {
        apply_resistance(&mut w);
        apply_friction(&mut w);
        apply_accel(&mut w);
        assert_eq!(w.entity(id).velocity.unwrap().0.x, MU - 1);
    }
}

#[test]
fn velocity_moves_position_over_a_tick() {
    let mut w = World::new();
    // 300 units per second crosses exactly one unit per tick (dt is a
    // 300th of a second, truncated to the grid).
    let e = moving_entity(300 * SCALE, 0);
    let id = w.spawn(e);
    apply_velocity(&mut w);
    let p = w.entity(id).position.unwrap();
    // 300 * SCALE * PHYSICS_TIME_STEP / SCALE with dt = 33_333.
    assert_eq!(p.0.x, 300 * 33_333);
    assert_eq!(p.0.y, 0);
}
