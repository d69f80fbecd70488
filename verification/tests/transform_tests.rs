//! Transform propagation down the hierarchy.

use glimpse_physics::components::{
    GlobalPosition, GlobalRotation, Position, Rotation, TwoDimTrans,
};
use glimpse_physics::entities::GameWorldInfo;
use glimpse_physics::errors::PhysicsError;
use glimpse_physics::fx::SCALE;
use glimpse_physics::mat::Mat2d;
use glimpse_physics::transform::propagate_transform;
use glimpse_physics::vec2::Vec2;
use glimpse_physics::world::{EntityData, World};

fn body_at(x: i64, y: i64, rot: i64) -> EntityData {
    let mut e = EntityData::empty();
    e.position = Some(Position(Vec2 { x, y }));
    e.rotation = Some(Rotation(rot));
    e.transform = Some(TwoDimTrans(Mat2d::identity()));
    e.global_position = Some(GlobalPosition(Vec2 { x: 0, y: 0 }));
    e.global_rotation = Some(GlobalRotation(0));
    e
}

#[test]
fn composition_through_two_levels() {
    // World root at identity; child at local (1, 0) with rotation 0;
    // grandchild at local (0, 1) with rotation 0.  After propagation the
    // grandchild's global position is (1, 1) and its global rotation 0.
    let mut w = World::new();
    let root = w.spawn(GameWorldInfo::new().into_entity());
    let a = w.spawn(body_at(SCALE, 0, 0));
    let b = w.spawn(body_at(0, SCALE, 0));
    w.push_child(root, a).unwrap();
    w.push_child(a, b).unwrap();
    propagate_transform(&mut w).unwrap();
    let a_pos = w.entity(a).global_position.unwrap();
    assert_eq!(a_pos.0.x, SCALE);
    assert_eq!(a_pos.0.y, 0);
    let b_pos = w.entity(b).global_position.unwrap();
    assert_eq!(b_pos.0.x, SCALE);
    assert_eq!(b_pos.0.y, SCALE);
    assert_eq!(w.entity(b).global_rotation.unwrap().0, 0);
    // The grandchild's accumulated matrix translates by (1, 1).
    let m = w.entity(b).transform.unwrap().0;
    assert_eq!(m.tx, SCALE);
    assert_eq!(m.ty, SCALE);
    assert_eq!(m.xx, SCALE);
    assert_eq!(m.xy, 0);
}

#[test]
fn rotations_add_down_the_chain() {
    let mut w = World::new();
    let root = w.spawn(GameWorldInfo::new().into_entity());
    let a = w.spawn(body_at(0, 0, 1_000_000));
    let b = w.spawn(body_at(0, 0, 2_000_000));
    w.push_child(root, a).unwrap();
    w.push_child(a, b).unwrap();
    propagate_transform(&mut w).unwrap();
    assert_eq!(w.entity(a).global_rotation.unwrap().0, 1_000_000);
    assert_eq!(w.entity(b).global_rotation.unwrap().0, 3_000_000);
}

#[test]
fn entities_outside_the_tree_are_untouched() {
    let mut w = World::new();
    let root = w.spawn(GameWorldInfo::new().into_entity());
    let a = w.spawn(body_at(SCALE, 0, 0));
    let stray = w.spawn(body_at(7 * SCALE, 0, 0));
    w.push_child(root, a).unwrap();
    propagate_transform(&mut w).unwrap();
    let s = w.entity(stray).global_position.unwrap();
    assert_eq!(s.0.x, 0);
    assert_eq!(s.0.y, 0);
}

#[test]
fn missing_root_is_reported() {
    let mut w = World::new();
    w.spawn(body_at(0, 0, 0));
    assert_eq!(propagate_transform(&mut w), Err(PhysicsError::NoWorldRoot));
}

#[test]
fn two_roots_are_reported() {
    let mut w = World::new();
    w.spawn(GameWorldInfo::new().into_entity());
    w.spawn(GameWorldInfo::new().into_entity());
    assert_eq!(propagate_transform(&mut w), Err(PhysicsError::MultipleWorldRoots));
}

#[test]
fn half_equipped_root_is_reported() {
    let mut w = World::new();
    let mut root = GameWorldInfo::new().into_entity();
    root.global_rotation = None;
    let root_id = w.spawn(root);
    let a = w.spawn(body_at(SCALE, 0, 0));
    w.push_child(root_id, a).unwrap();
    assert_eq!(
        propagate_transform(&mut w),
        Err(PhysicsError::MissingComponent { entity: root_id })
    );
}

#[test]
fn childless_root_changes_nothing() {
    let mut w = World::new();
    w.spawn(GameWorldInfo::new().into_entity());
    let stray = w.spawn(body_at(SCALE, SCALE, 0));
    propagate_transform(&mut w).unwrap();
    let s = w.entity(stray).global_position.unwrap();
    assert_eq!(s.0.x, 0);
    assert_eq!(s.0.y, 0);
}
