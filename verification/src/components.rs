//! The physics components an entity can carry.
//!
//! These mirror the data model of the simulation: per-entity state written
//! by the pipeline stages and read by downstream consumers.  Marker
//! components (gravity, collider, wall, ...) are plain `bool` flags on the
//! entity record itself.

use vstd::prelude::*;
use crate::fx::SCALE;
use crate::mat::Mat2d;
use crate::vec2::Vec2;

verus! {

/// World-space location (local to the entity's parent in the hierarchy).
#[derive(Clone, Copy, PartialEq, Eq, Structural, Debug)]
pub struct Position(pub Vec2);

/// Local orientation, a fixed-point angle in radians.
#[derive(Clone, Copy, PartialEq, Eq, Structural, Debug)]
pub struct Rotation(pub i64);

/// Linear velocity, units per second.
#[derive(Clone, Copy, PartialEq, Eq, Structural, Debug)]
pub struct Velocity(pub Vec2);

/// Angular velocity, radians per second.
#[derive(Clone, Copy, PartialEq, Eq, Structural, Debug)]
pub struct AngularVelocity(pub i64);

/// Transient per-tick acceleration accumulator; reset to zero every tick
/// right after it is integrated into the velocity.
#[derive(Clone, Copy, PartialEq, Eq, Structural, Debug)]
pub struct Acceleration(pub Vec2);

/// Quadratic-drag coefficients per axis.
#[derive(Clone, Copy, PartialEq, Eq, Structural, Debug)]
pub struct Resistance(pub Vec2);

/// Constant-magnitude drag per axis.
#[derive(Clone, Copy, PartialEq, Eq, Structural, Debug)]
pub struct Friction(pub Vec2);

/// Persistent external force contribution, added to the acceleration every
/// tick by the force stage.
#[derive(Clone, Copy, PartialEq, Eq, Structural, Debug)]
pub struct AdjustAcceleration(pub Vec2);

/// Persistent external impulse contribution, added to the velocity every
/// tick by the integration stage.
#[derive(Clone, Copy, PartialEq, Eq, Structural, Debug)]
pub struct AdjustVelocity(pub Vec2);

/// Per-axis forced acceleration: where a value is present it replaces the
/// accumulated acceleration on that axis for the tick.
#[derive(Clone, Copy, Debug)]
pub struct OverrideAcceleration(pub Option<i64>, pub Option<i64>);

/// Per-axis forced velocity: where a value is present it replaces the
/// computed velocity on that axis for the tick.
#[derive(Clone, Copy, Debug)]
pub struct OverrideVelocity(pub Option<i64>, pub Option<i64>);

/// Forced angular velocity, replacing the computed one when present.
#[derive(Clone, Copy, Debug)]
pub struct OverrideAngularVelocity(pub Option<i64>);

/// Collision geometry of an entity.
#[derive(Clone, Debug)]
pub enum Shape {
    /// An axis-aligned rectangle of the given size, centred on the
    /// entity's position.
    Rect(Vec2),
    /// A circle of the given radius, centred on the entity's position.
    Circle(i64),
    /// A polygon given by its corner points.
    Poly(Vec<Vec2>),
}

/// Directional contact flags, fully recomputed by every run of the swept
/// wall-collision stage: they reflect only the current tick's resolution.
#[derive(Clone, Copy, PartialEq, Eq, Structural, Debug)]
pub struct WallSensor {
    pub left: bool,
    pub right: bool,
    pub down: bool,
}

/// The cached hierarchy transform of an entity, written by the transform
/// propagation stage.
#[derive(Clone, Copy, PartialEq, Eq, Structural, Debug)]
pub struct TwoDimTrans(pub Mat2d);

/// Cached world-space position, derived by transform propagation.
#[derive(Clone, Copy, PartialEq, Eq, Structural, Debug)]
pub struct GlobalPosition(pub Vec2);

/// Cached world-space rotation, derived by transform propagation.
#[derive(Clone, Copy, PartialEq, Eq, Structural, Debug)]
pub struct GlobalRotation(pub i64);

/// Hit points of a player or enemy.
#[derive(Clone, Copy, PartialEq, Eq, Structural, Debug)]
pub struct Health(pub i64);

impl Default for Shape {
    /// The default shape is a unit square.
    fn default() -> (r: Shape)
        ensures
            r matches Shape::Rect(s) && s.x == SCALE && s.y == SCALE,
    {
        Shape::Rect(Vec2 { x: SCALE, y: SCALE })
    }
}

impl Default for TwoDimTrans {
    /// The default transform is the identity.
    fn default() -> (r: TwoDimTrans)
        ensures
            r.0 == (Mat2d { xx: SCALE, xy: 0, yx: 0, yy: SCALE, tx: 0, ty: 0 }),
    {
        TwoDimTrans(Mat2d::identity())
    }
}

impl Default for WallSensor {
    /// A sensor with no contact on any side.
    fn default() -> (r: WallSensor)
        ensures
            !r.left && !r.right && !r.down,
    {
        WallSensor { left: false, right: false, down: false }
    }
}

} // verus!
