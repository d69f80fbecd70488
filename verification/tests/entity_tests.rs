//! Entity assembly: the bundles spawn with the intended components.

use glimpse_physics::components::{Position, Shape};
use glimpse_physics::entities::{
    EnemyBundle, GameWorldInfo, HammerBundle, PlayerBundle, WallBundle, ACTOR_FRICTION_X,
    ACTOR_RESIST_X, ACTOR_RESIST_Y, HAMMER_SHAFT_SIZE_Y, HAMMER_SIZE_Y,
};
use glimpse_physics::fx::SCALE;
use glimpse_physics::timers::{AttackStates, JumpStates};
use glimpse_physics::vec2::Vec2;

fn v(x: i64, y: i64) -> Vec2 {
    Vec2 { x, y }
}

#[test]
fn wall_bundles_carry_position_shape_and_marker() {
    let e = WallBundle::new(v(-3 * SCALE, -8 * SCALE), v(20 * SCALE, SCALE / 2)).into_entity();
    assert_eq!(e.position, Some(Position(v(-3 * SCALE, -8 * SCALE))));
    match e.shape {
        Some(Shape::Rect(s)) => assert_eq!(s, v(20 * SCALE, SCALE / 2)),
        _ => panic!("wall shape is not a rectangle"),
    }
    assert!(e.wall);
    assert!(!e.wall_collider);
    assert!(e.velocity.is_none());
}

#[test]
fn player_bundle_spawns_with_the_game_constants() {
    let size = v(SCALE, 17 * SCALE / 10);
    let p = PlayerBundle::new(v(0, 5 * SCALE), size);
    assert_eq!(p.physics.body.position, Position(v(0, 5 * SCALE)));
    assert_eq!(p.physics.resistance.0, v(ACTOR_RESIST_X, ACTOR_RESIST_Y));
    assert_eq!(p.physics.friction.0, v(ACTOR_FRICTION_X, 0));
    assert_eq!(p.jumper.state, JumpStates::Unjumpable);
    assert_eq!(p.attacker.state, AttackStates::CanAttack);
    let e = p.into_entity();
    assert!(e.gravity && e.wall_collider);
    assert!(!e.collider);
    assert!(e.wall_sensor.is_some());
    assert!(e.override_velocity.is_some());
    assert!(e.adjust_acceleration.is_some());
}

#[test]
fn enemy_bundle_is_also_a_narrow_phase_collider() {
    let e = EnemyBundle::new(v(-SCALE, 5 * SCALE), v(SCALE, SCALE)).into_entity();
    assert_eq!(e.position, Some(Position(v(-SCALE, 5 * SCALE))));
    assert!(e.gravity && e.wall_collider && e.collider);
    assert!(e.jumper.is_none() && e.attacker.is_none());
}

#[test]
fn world_root_starts_at_identity() {
    let e = GameWorldInfo::new().into_entity();
    assert!(e.game_world);
    let m = e.transform.unwrap().0;
    assert_eq!(m.xx, SCALE);
    assert_eq!(m.yy, SCALE);
    assert_eq!(m.xy, 0);
    assert_eq!(m.yx, 0);
    assert_eq!(m.tx, 0);
    assert_eq!(m.ty, 0);
    assert_eq!(e.position, Some(Position(v(0, 0))));
}

#[test]
fn hammer_head_sits_at_the_end_of_the_shaft() {
    let (shaft, head) = HammerBundle::new(
        v(0, 4 * SCALE / 10),
        v(7_500_000, HAMMER_SIZE_Y),
        v(2_000_000, HAMMER_SHAFT_SIZE_Y),
        0,
        5_000_000,
        4 * SCALE,
    );
    assert_eq!(shaft.body.position, Position(v(0, 4 * SCALE / 10)));
    assert_eq!(shaft.timer.0.duration, 5_000_000);
    assert_eq!(shaft.angular_velocity.0, 4 * SCALE);
    // Half the shaft plus half the head: 1.0 + 0.25 above the pivot.
    assert_eq!(head.body.position, Position(v(0, 12_500_000)));
    let shaft_entity = shaft.into_entity();
    let head_entity = head.into_entity();
    assert!(head_entity.collider);
    assert!(!shaft_entity.collider);
    assert!(shaft_entity.angular_velocity.is_some());
}
