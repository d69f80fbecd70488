//! Entity assembly: the component bundles the game spawns.
//!
//! Each bundle gathers the components of one kind of entity with the
//! initial values the game uses; `into_entity` turns a bundle into the
//! store record that carries exactly those components and no others.

use vstd::prelude::*;
use crate::components::{
    Acceleration, AdjustAcceleration, AdjustVelocity, AngularVelocity, Friction, GlobalPosition,
    GlobalRotation, Health, OverrideAcceleration, OverrideAngularVelocity, OverrideVelocity,
    Position, Resistance, Rotation, Shape, TwoDimTrans, Velocity, WallSensor,
};
use crate::fx::{fx_add, fx_mul, mul_sat, add_sat, HALF, SCALE};
use crate::mat::Mat2d;
use crate::timers::{Attacker, AttackStates, Jumper, JumpStates, Timer};
use crate::vec2::Vec2;
use crate::world::EntityData;

verus! {

/// Horizontal and vertical drag coefficients of the player and enemy
/// (1.0 and 0.05).
pub const ACTOR_RESIST_X: i64 = 10_000_000;

/// Vertical drag coefficient of the player and enemy (0.05).
pub const ACTOR_RESIST_Y: i64 = 500_000;

/// Horizontal friction of the player and enemy (7.0).
pub const ACTOR_FRICTION_X: i64 = 70_000_000;

/// Size of the hammer head (0.75 by 0.5).
pub const HAMMER_SIZE_X: i64 = 7_500_000;

/// Vertical size of the hammer head.
pub const HAMMER_SIZE_Y: i64 = 5_000_000;

/// Size of the hammer shaft (0.2 by 2.0).
pub const HAMMER_SHAFT_SIZE_X: i64 = 2_000_000;

/// Vertical size of the hammer shaft.
pub const HAMMER_SHAFT_SIZE_Y: i64 = 20_000_000;

/// The spatial core of an entity: where it is, how it is turned, its
/// cached hierarchy transform and its collision shape.
pub struct Body {
    pub position: Position,
    pub rotation: Rotation,
    pub transform: TwoDimTrans,
    pub global_position: GlobalPosition,
    pub global_rotations: GlobalRotation,
    pub shape: Shape,
}

impl Body {
    /// A body at the origin with the identity transform and a unit
    /// square shape.
    pub fn base() -> (r: Body)
        ensures
            r.position == Position(Vec2 { x: 0, y: 0 }),
            r.rotation == Rotation(0),
            r.transform.0 == (Mat2d { xx: SCALE, xy: 0, yx: 0, yy: SCALE, tx: 0, ty: 0 }),
            r.global_position == GlobalPosition(Vec2 { x: 0, y: 0 }),
            r.global_rotations == GlobalRotation(0),
            r.shape matches Shape::Rect(s) && s == (Vec2 { x: SCALE, y: SCALE }),
    {
        Body {
            position: Position(Vec2 { x: 0, y: 0 }),
            rotation: Rotation(0),
            transform: TwoDimTrans(Mat2d::identity()),
            global_position: GlobalPosition(Vec2 { x: 0, y: 0 }),
            global_rotations: GlobalRotation(0),
            shape: Shape::Rect(Vec2 { x: SCALE, y: SCALE }),
        }
    }
}

/// The moving-body components shared by the player and the enemy.
pub struct BasePhysicsBundle {
    pub body: Body,
    pub velocity: Velocity,
    pub acceleration: Acceleration,
    pub angular_velocity: AngularVelocity,
    pub resistance: Resistance,
    pub friction: Friction,
}

/// The intent components upstream input or AI logic writes.
pub struct PhysicsControllerBundle {
    pub over_vel: OverrideVelocity,
    pub over_accel: OverrideAcceleration,
    pub adj_vel: AdjustVelocity,
    pub adj_acce: AdjustAcceleration,
    pub over_ang_vel: OverrideAngularVelocity,
}

impl PhysicsControllerBundle {
    /// A controller with no overrides and zero adjustments.
    pub fn base() -> (r: PhysicsControllerBundle)
        ensures
            r.over_vel.0 is None && r.over_vel.1 is None,
            r.over_accel.0 is None && r.over_accel.1 is None,
            r.adj_vel == AdjustVelocity(Vec2 { x: 0, y: 0 }),
            r.adj_acce == AdjustAcceleration(Vec2 { x: 0, y: 0 }),
            r.over_ang_vel.0 is None,
    {
        PhysicsControllerBundle {
            over_vel: OverrideVelocity(None, None),
            over_accel: OverrideAcceleration(None, None),
            adj_vel: AdjustVelocity(Vec2 { x: 0, y: 0 }),
            adj_acce: AdjustAcceleration(Vec2 { x: 0, y: 0 }),
            over_ang_vel: OverrideAngularVelocity(None),
        }
    }
}

/// A static wall: a rectangle at a fixed position.
pub struct WallBundle {
    pub position: Position,
    pub shape: Shape,
}

impl WallBundle {
    /// A wall of the given size centred at `pos`.
    pub fn new(pos: Vec2, size: Vec2) -> (r: WallBundle)
        ensures
            r.position == Position(pos),
            r.shape == Shape::Rect(size),
    {
        WallBundle { position: Position(pos), shape: Shape::Rect(size) }
    }

    /// The store record of this wall: position, shape and the wall
    /// marker, nothing else.
    pub fn into_entity(self) -> (r: EntityData)
        ensures
            r.position == Some(self.position),
            r.shape == Some(self.shape),
            r.wall,
            !r.wall_collider && !r.collider && !r.gravity && !r.game_world,
            r.rotation is None && r.velocity is None && r.acceleration is None,
            r.wall_sensor is None && r.transform is None,
            r.children@ == Seq::<usize>::empty(),
    {
        let mut e = EntityData::empty();
        e.position = Some(self.position);
        e.shape = Some(self.shape);
        e.wall = true;
        e
    }
}

/// The world root of the transform hierarchy.
pub struct GameWorldInfo {
    pub position: Position,
    pub rotation: Rotation,
    pub transform: TwoDimTrans,
    pub global_position: GlobalPosition,
    pub global_rotations: GlobalRotation,
}

impl GameWorldInfo {
    /// The root entity: at the origin with the identity accumulated
    /// transform.
    pub fn new() -> (r: GameWorldInfo)
        ensures
            r.position == Position(Vec2 { x: 0, y: 0 }),
            r.rotation == Rotation(0),
            r.transform.0 == (Mat2d { xx: SCALE, xy: 0, yx: 0, yy: SCALE, tx: 0, ty: 0 }),
            r.global_position == GlobalPosition(Vec2 { x: 0, y: 0 }),
            r.global_rotations == GlobalRotation(0),
    {
        GameWorldInfo {
            position: Position(Vec2 { x: 0, y: 0 }),
            rotation: Rotation(0),
            transform: TwoDimTrans(Mat2d::identity()),
            global_position: GlobalPosition(Vec2 { x: 0, y: 0 }),
            global_rotations: GlobalRotation(0),
        }
    }

    /// The store record of the world root: the designated root marker
    /// with the full transform component set.
    pub fn into_entity(self) -> (r: EntityData)
        ensures
            r.position == Some(self.position),
            r.rotation == Some(self.rotation),
            r.transform == Some(self.transform),
            r.global_position == Some(self.global_position),
            r.global_rotation == Some(self.global_rotations),
            r.game_world,
            !r.wall && !r.wall_collider && !r.collider && !r.gravity,
            r.shape is None && r.velocity is None && r.acceleration is None,
            r.children@ == Seq::<usize>::empty(),
    {
        let mut e = EntityData::empty();
        e.position = Some(self.position);
        e.rotation = Some(self.rotation);
        e.transform = Some(self.transform);
        e.global_position = Some(self.global_position);
        e.global_rotation = Some(self.global_rotations);
        e.game_world = true;
        e
    }
}

/// The player: a gravity-bound wall collider with drag, friction, a
/// wall sensor, an intent controller, and jump and attack state.
pub struct PlayerBundle {
    pub physics: BasePhysicsBundle,
    pub physics_controller: PhysicsControllerBundle,
    pub wall_sensor: WallSensor,
    pub jumper: Jumper,
    pub attacker: Attacker,
    pub health: Health,
}

impl PlayerBundle {
    /// The player's initial components: a body of the given size at the
    /// given starting position.
    pub fn new(position: Vec2, size: Vec2) -> (r: PlayerBundle)
        ensures
            r.physics.body.position == Position(position),
            r.physics.body.rotation == Rotation(0),
            r.physics.body.shape == Shape::Rect(size),
            r.physics.velocity == Velocity(Vec2 { x: 0, y: 0 }),
            r.physics.acceleration == Acceleration(Vec2 { x: 0, y: 0 }),
            r.physics.angular_velocity == AngularVelocity(0),
            r.physics.resistance == Resistance(Vec2 { x: ACTOR_RESIST_X, y: ACTOR_RESIST_Y }),
            r.physics.friction == Friction(Vec2 { x: ACTOR_FRICTION_X, y: 0 }),
            r.wall_sensor == (WallSensor { left: false, right: false, down: false }),
            r.jumper.state == JumpStates::Unjumpable,
            r.attacker.state == AttackStates::CanAttack,
            r.health == Health(0),
            r.physics_controller.over_vel.0 is None && r.physics_controller.over_vel.1 is None,
            r.physics_controller.over_accel.0 is None
                && r.physics_controller.over_accel.1 is None,
            r.physics_controller.adj_vel == AdjustVelocity(Vec2 { x: 0, y: 0 }),
            r.physics_controller.adj_acce == AdjustAcceleration(Vec2 { x: 0, y: 0 }),
            r.physics_controller.over_ang_vel.0 is None,
    {
        let mut body = Body::base();
        body.position = Position(position);
        body.shape = Shape::Rect(size);
        PlayerBundle {
            physics: BasePhysicsBundle {
                body,
                velocity: Velocity(Vec2 { x: 0, y: 0 }),
                acceleration: Acceleration(Vec2 { x: 0, y: 0 }),
                angular_velocity: AngularVelocity(0),
                resistance: Resistance(Vec2 { x: ACTOR_RESIST_X, y: ACTOR_RESIST_Y }),
                friction: Friction(Vec2 { x: ACTOR_FRICTION_X, y: 0 }),
            },
            physics_controller: PhysicsControllerBundle::base(),
            wall_sensor: WallSensor { left: false, right: false, down: false },
            jumper: Jumper { state: JumpStates::Unjumpable },
            attacker: Attacker { state: AttackStates::CanAttack },
            health: Health(0),
        }
    }

    /// The store record of the player: the moving body, the intent
    /// controller, gravity, the wall-collider marker and its sensor,
    /// and the jump and attack state.
    pub fn into_entity(self) -> (r: EntityData)
        ensures
            r.position == Some(self.physics.body.position),
            r.rotation == Some(self.physics.body.rotation),
            r.transform == Some(self.physics.body.transform),
            r.global_position == Some(self.physics.body.global_position),
            r.global_rotation == Some(self.physics.body.global_rotations),
            r.shape == Some(self.physics.body.shape),
            r.velocity == Some(self.physics.velocity),
            r.acceleration == Some(self.physics.acceleration),
            r.angular_velocity == Some(self.physics.angular_velocity),
            r.resistance == Some(self.physics.resistance),
            r.friction == Some(self.physics.friction),
            r.override_velocity == Some(self.physics_controller.over_vel),
            r.override_acceleration == Some(self.physics_controller.over_accel),
            r.adjust_velocity == Some(self.physics_controller.adj_vel),
            r.adjust_acceleration == Some(self.physics_controller.adj_acce),
            r.override_angular_velocity == Some(self.physics_controller.over_ang_vel),
            r.wall_sensor == Some(self.wall_sensor),
            r.jumper == Some(self.jumper),
            r.attacker == Some(self.attacker),
            r.health == Some(self.health),
            r.gravity && r.wall_collider,
            !r.wall && !r.collider && !r.game_world,
            r.children@ == Seq::<usize>::empty(),
    {
        let mut e = EntityData::empty();
        e.position = Some(self.physics.body.position);
        e.rotation = Some(self.physics.body.rotation);
        e.transform = Some(self.physics.body.transform);
        e.global_position = Some(self.physics.body.global_position);
        e.global_rotation = Some(self.physics.body.global_rotations);
        e.shape = Some(self.physics.body.shape);
        e.velocity = Some(self.physics.velocity);
        e.acceleration = Some(self.physics.acceleration);
        e.angular_velocity = Some(self.physics.angular_velocity);
        e.resistance = Some(self.physics.resistance);
        e.friction = Some(self.physics.friction);
        e.override_velocity = Some(self.physics_controller.over_vel);
        e.override_acceleration = Some(self.physics_controller.over_accel);
        e.adjust_velocity = Some(self.physics_controller.adj_vel);
        e.adjust_acceleration = Some(self.physics_controller.adj_acce);
        e.override_angular_velocity = Some(self.physics_controller.over_ang_vel);
        e.wall_sensor = Some(self.wall_sensor);
        e.jumper = Some(self.jumper);
        e.attacker = Some(self.attacker);
        e.health = Some(self.health);
        e.gravity = true;
        e.wall_collider = true;
        e
    }
}

/// The enemy: like the player a gravity-bound wall collider with drag
/// and friction, but also a narrow-phase collider, without jump or
/// attack state.
pub struct EnemyBundle {
    pub health: Health,
    pub physics_controller: PhysicsControllerBundle,
    pub physics: BasePhysicsBundle,
    pub wall_sensor: WallSensor,
}

impl EnemyBundle {
    /// The enemy's initial components at the given position and size.
    pub fn new(position: Vec2, size: Vec2) -> (r: EnemyBundle)
        ensures
            r.physics.body.position == Position(position),
            r.physics.body.rotation == Rotation(0),
            r.physics.body.shape == Shape::Rect(size),
            r.physics.velocity == Velocity(Vec2 { x: 0, y: 0 }),
            r.physics.acceleration == Acceleration(Vec2 { x: 0, y: 0 }),
            r.physics.angular_velocity == AngularVelocity(0),
            r.physics.resistance == Resistance(Vec2 { x: ACTOR_RESIST_X, y: ACTOR_RESIST_Y }),
            r.physics.friction == Friction(Vec2 { x: ACTOR_FRICTION_X, y: 0 }),
            r.wall_sensor == (WallSensor { left: false, right: false, down: false }),
            r.health == Health(0),
            r.physics_controller.over_vel.0 is None && r.physics_controller.over_vel.1 is None,
            r.physics_controller.over_accel.0 is None
                && r.physics_controller.over_accel.1 is None,
            r.physics_controller.adj_vel == AdjustVelocity(Vec2 { x: 0, y: 0 }),
            r.physics_controller.adj_acce == AdjustAcceleration(Vec2 { x: 0, y: 0 }),
            r.physics_controller.over_ang_vel.0 is None,
    {
        let mut body = Body::base();
        body.position = Position(position);
        body.shape = Shape::Rect(size);
        EnemyBundle {
            health: Health(0),
            physics_controller: PhysicsControllerBundle::base(),
            physics: BasePhysicsBundle {
                body,
                velocity: Velocity(Vec2 { x: 0, y: 0 }),
                acceleration: Acceleration(Vec2 { x: 0, y: 0 }),
                angular_velocity: AngularVelocity(0),
                resistance: Resistance(Vec2 { x: ACTOR_RESIST_X, y: ACTOR_RESIST_Y }),
                friction: Friction(Vec2 { x: ACTOR_FRICTION_X, y: 0 }),
            },
            wall_sensor: WallSensor { left: false, right: false, down: false },
        }
    }

    /// The store record of the enemy: the moving body and controller,
    /// gravity, wall-collider marker and sensor, and the narrow-phase
    /// collider marker.
    pub fn into_entity(self) -> (r: EntityData)
        ensures
            r.position == Some(self.physics.body.position),
            r.rotation == Some(self.physics.body.rotation),
            r.transform == Some(self.physics.body.transform),
            r.global_position == Some(self.physics.body.global_position),
            r.global_rotation == Some(self.physics.body.global_rotations),
            r.shape == Some(self.physics.body.shape),
            r.velocity == Some(self.physics.velocity),
            r.acceleration == Some(self.physics.acceleration),
            r.angular_velocity == Some(self.physics.angular_velocity),
            r.resistance == Some(self.physics.resistance),
            r.friction == Some(self.physics.friction),
            r.override_velocity == Some(self.physics_controller.over_vel),
            r.override_acceleration == Some(self.physics_controller.over_accel),
            r.adjust_velocity == Some(self.physics_controller.adj_vel),
            r.adjust_acceleration == Some(self.physics_controller.adj_acce),
            r.override_angular_velocity == Some(self.physics_controller.over_ang_vel),
            r.wall_sensor == Some(self.wall_sensor),
            r.health == Some(self.health),
            r.jumper is None && r.attacker is None,
            r.gravity && r.wall_collider && r.collider,
            !r.wall && !r.game_world,
            r.children@ == Seq::<usize>::empty(),
    {
        let mut e = EntityData::empty();
        e.position = Some(self.physics.body.position);
        e.rotation = Some(self.physics.body.rotation);
        e.transform = Some(self.physics.body.transform);
        e.global_position = Some(self.physics.body.global_position);
        e.global_rotation = Some(self.physics.body.global_rotations);
        e.shape = Some(self.physics.body.shape);
        e.velocity = Some(self.physics.velocity);
        e.acceleration = Some(self.physics.acceleration);
        e.angular_velocity = Some(self.physics.angular_velocity);
        e.resistance = Some(self.physics.resistance);
        e.friction = Some(self.physics.friction);
        e.override_velocity = Some(self.physics_controller.over_vel);
        e.override_acceleration = Some(self.physics_controller.over_accel);
        e.adjust_velocity = Some(self.physics_controller.adj_vel);
        e.adjust_acceleration = Some(self.physics_controller.adj_acce);
        e.override_angular_velocity = Some(self.physics_controller.over_ang_vel);
        e.wall_sensor = Some(self.wall_sensor);
        e.health = Some(self.health);
        e.gravity = true;
        e.wall_collider = true;
        e.collider = true;
        e
    }
}

/// The timer of a hammer swing.
#[derive(Clone, Copy, PartialEq, Eq, Structural, Debug)]
pub struct HammerTimer(pub Timer);

/// The hammer's rotating shaft, parented to the player.
pub struct HammerShaftBundle {
    pub timer: HammerTimer,
    pub body: Body,
    pub controller: PhysicsControllerBundle,
    pub angular_velocity: AngularVelocity,
}

/// The hammer's head, parented to the shaft and detected by the narrow
/// phase.
pub struct HammerBundle {
    pub body: Body,
}

impl HammerBundle {
    /// The two entities of a hammer: the shaft, placed at `position`
    /// with the given start angle, swing time and angular velocity, and
    /// the head, sitting at the far end of the shaft.
    pub fn new(
        position: Vec2, head_size: Vec2, shaft_size: Vec2,
        start_angle: i64, swing_time: i64, angular_velocity: i64,
    ) -> (r: (HammerShaftBundle, HammerBundle))
        ensures
            r.0.timer.0 == (Timer { elapsed: 0, duration: swing_time }),
            r.0.body.position == Position(position),
            r.0.body.rotation == Rotation(start_angle),
            r.0.body.shape == Shape::Rect(shaft_size),
            r.0.angular_velocity == AngularVelocity(angular_velocity),
            r.1.body.position == Position(
                Vec2 {
                    x: 0,
                    y: add_sat(
                        mul_sat(shaft_size.y as int, HALF as int),
                        mul_sat(head_size.y as int, HALF as int),
                    ) as i64,
                },
            ),
            r.1.body.rotation == Rotation(0),
            r.1.body.shape == Shape::Rect(head_size),
    {
        let mut shaft_body = Body::base();
        shaft_body.position = Position(position);
        shaft_body.rotation = Rotation(start_angle);
        shaft_body.shape = Shape::Rect(shaft_size);
        let mut head_body = Body::base();
        head_body.position = Position(
            Vec2 { x: 0, y: fx_add(fx_mul(shaft_size.y, HALF), fx_mul(head_size.y, HALF)) },
        );
        head_body.shape = Shape::Rect(head_size);
        (
            HammerShaftBundle {
                timer: HammerTimer(Timer::from_seconds(swing_time)),
                body: shaft_body,
                controller: PhysicsControllerBundle::base(),
                angular_velocity: AngularVelocity(angular_velocity),
            },
            HammerBundle { body: head_body },
        )
    }
}

impl HammerShaftBundle {
    /// The store record of the shaft: its body, controller and angular
    /// velocity.
    pub fn into_entity(self) -> (r: EntityData)
        ensures
            r.position == Some(self.body.position),
            r.rotation == Some(self.body.rotation),
            r.transform == Some(self.body.transform),
            r.global_position == Some(self.body.global_position),
            r.global_rotation == Some(self.body.global_rotations),
            r.shape == Some(self.body.shape),
            r.angular_velocity == Some(self.angular_velocity),
            r.override_velocity == Some(self.controller.over_vel),
            r.override_acceleration == Some(self.controller.over_accel),
            r.adjust_velocity == Some(self.controller.adj_vel),
            r.adjust_acceleration == Some(self.controller.adj_acce),
            r.override_angular_velocity == Some(self.controller.over_ang_vel),
            !r.collider && !r.wall && !r.wall_collider && !r.gravity && !r.game_world,
            r.velocity is None && r.acceleration is None,
            r.children@ == Seq::<usize>::empty(),
    {
        let mut e = EntityData::empty();
        e.position = Some(self.body.position);
        e.rotation = Some(self.body.rotation);
        e.transform = Some(self.body.transform);
        e.global_position = Some(self.body.global_position);
        e.global_rotation = Some(self.body.global_rotations);
        e.shape = Some(self.body.shape);
        e.angular_velocity = Some(self.angular_velocity);
        e.override_velocity = Some(self.controller.over_vel);
        e.override_acceleration = Some(self.controller.over_accel);
        e.adjust_velocity = Some(self.controller.adj_vel);
        e.adjust_acceleration = Some(self.controller.adj_acce);
        e.override_angular_velocity = Some(self.controller.over_ang_vel);
        e
    }
}

impl HammerBundle {
    /// The store record of the head: its body and the narrow-phase
    /// collider marker.
    pub fn into_entity(self) -> (r: EntityData)
        ensures
            r.position == Some(self.body.position),
            r.rotation == Some(self.body.rotation),
            r.transform == Some(self.body.transform),
            r.global_position == Some(self.body.global_position),
            r.global_rotation == Some(self.body.global_rotations),
            r.shape == Some(self.body.shape),
            r.collider,
            !r.wall && !r.wall_collider && !r.gravity && !r.game_world,
            r.velocity is None && r.acceleration is None && r.angular_velocity is None,
            r.children@ == Seq::<usize>::empty(),
    {
        let mut e = EntityData::empty();
        e.position = Some(self.body.position);
        e.rotation = Some(self.body.rotation);
        e.transform = Some(self.body.transform);
        e.global_position = Some(self.body.global_position);
        e.global_rotation = Some(self.body.global_rotations);
        e.shape = Some(self.body.shape);
        e.collider = true;
        e
    }
}

} // verus!
