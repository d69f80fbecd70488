//! The force and integration pipeline.
//!
//! Once per fixed tick the stages run in this order: force accumulation
//! (adjustments, gravity, resistance, friction), acceleration override,
//! acceleration-to-velocity integration (which resets the accumulator and
//! adds the persistent velocity adjustment), velocity override, and — after
//! the swept collision stage — velocity-to-position integration.
//!
//! Every stage is specified entity by entity: the store afterwards is
//! exactly the per-entity step function mapped over the store before.

use vstd::prelude::*;
use crate::components::{Acceleration, Position, Rotation, Velocity};
use crate::fx::{add_sat, fx_add, fx_mul, fx_sub, mul_sat, sub_sat, MU, PHYSICS_TIME_STEP};
use crate::vec2::{v2_plus, v2_scaled, Vec2};
use crate::world::{EntityData, World};

verus! {

/// Horizontal component of the constant gravity acceleration.
pub const GRAVITY_X: i64 = 0;

/// Vertical component of the constant gravity acceleration (-9.8).
pub const GRAVITY_Y: i64 = -98_000_000;

/// One axis of the quadratic-drag contribution: when the velocity on the
/// axis exceeds the rest threshold, `v*v*r` is removed from the
/// acceleration against the direction of motion; otherwise the axis is
/// left alone.
pub open spec fn drag_axis(a: int, v: int, r: int) -> int {
    if v > MU {
        sub_sat(a, mul_sat(mul_sat(v, v), r))
    } else if v < -MU {
        add_sat(a, mul_sat(mul_sat(v, v), r))
    } else {
        a
    }
}

/// One axis of the constant-friction contribution: when the velocity on
/// the axis exceeds the rest threshold, `f` is removed from the
/// acceleration against the direction of motion.
pub open spec fn friction_axis(a: int, v: int, f: int) -> int {
    if v > MU {
        sub_sat(a, f)
    } else if v < -MU {
        add_sat(a, f)
    } else {
        a
    }
}

/// A value forced by an override where one is present.
pub open spec fn override_axis(cur: i64, o: Option<i64>) -> i64 {
    if o is Some {
        o->0
    } else {
        cur
    }
}

/// What the adjustment part of the force stage does to one entity.
pub open spec fn acceleration_adjustment_step(e: EntityData) -> EntityData {
    if e.acceleration is Some && e.adjust_acceleration is Some {
        EntityData {
            acceleration: Some(
                Acceleration(v2_plus((e.acceleration->0).0, (e.adjust_acceleration->0).0)),
            ),
            ..e
        }
    } else {
        e
    }
}

/// What the gravity part of the force stage does to one entity.
pub open spec fn gravity_step(e: EntityData) -> EntityData {
    if e.acceleration is Some && e.gravity {
        EntityData {
            acceleration: Some(
                Acceleration(
                    v2_plus((e.acceleration->0).0, Vec2 { x: GRAVITY_X, y: GRAVITY_Y }),
                ),
            ),
            ..e
        }
    } else {
        e
    }
}

/// What the quadratic-drag part of the force stage does to one entity.
pub open spec fn resistance_step(e: EntityData) -> EntityData {
    if e.acceleration is Some && e.velocity is Some && e.resistance is Some {
        EntityData {
            acceleration: Some(
                Acceleration(
                    Vec2 {
                        x: drag_axis(
                            ((e.acceleration->0).0.x) as int,
                            ((e.velocity->0).0.x) as int,
                            ((e.resistance->0).0.x) as int,
                        ) as i64,
                        y: drag_axis(
                            ((e.acceleration->0).0.y) as int,
                            ((e.velocity->0).0.y) as int,
                            ((e.resistance->0).0.y) as int,
                        ) as i64,
                    },
                ),
            ),
            ..e
        }
    } else {
        e
    }
}

/// What the constant-friction part of the force stage does to one entity.
pub open spec fn friction_step(e: EntityData) -> EntityData {
    if e.acceleration is Some && e.velocity is Some && e.friction is Some {
        EntityData {
            acceleration: Some(
                Acceleration(
                    Vec2 {
                        x: friction_axis(
                            ((e.acceleration->0).0.x) as int,
                            ((e.velocity->0).0.x) as int,
                            ((e.friction->0).0.x) as int,
                        ) as i64,
                        y: friction_axis(
                            ((e.acceleration->0).0.y) as int,
                            ((e.velocity->0).0.y) as int,
                            ((e.friction->0).0.y) as int,
                        ) as i64,
                    },
                ),
            ),
            ..e
        }
    } else {
        e
    }
}

/// What the acceleration-override stage does to one entity.
pub open spec fn acceleration_override_step(e: EntityData) -> EntityData {
    if e.acceleration is Some && e.override_acceleration is Some {
        EntityData {
            acceleration: Some(
                Acceleration(
                    Vec2 {
                        x: override_axis((e.acceleration->0).0.x, (e.override_acceleration->0).0),
                        y: override_axis((e.acceleration->0).0.y, (e.override_acceleration->0).1),
                    },
                ),
            ),
            ..e
        }
    } else {
        e
    }
}

/// What the integration stage does to one entity: the accumulated
/// acceleration, scaled by the tick duration, is added to the velocity,
/// and the accumulator is reset to the zero vector.
pub open spec fn integrate_acceleration_step(e: EntityData) -> EntityData {
    if e.acceleration is Some && e.velocity is Some {
        EntityData {
            velocity: Some(
                Velocity(
                    v2_plus(
                        (e.velocity->0).0,
                        v2_scaled((e.acceleration->0).0, PHYSICS_TIME_STEP as int),
                    ),
                ),
            ),
            acceleration: Some(Acceleration(Vec2 { x: 0, y: 0 })),
            ..e
        }
    } else {
        e
    }
}

/// What the velocity-adjustment part of the integration stage does to one
/// entity.
pub open spec fn velocity_adjustment_step(e: EntityData) -> EntityData {
    if e.velocity is Some && e.adjust_velocity is Some {
        EntityData {
            velocity: Some(Velocity(v2_plus((e.velocity->0).0, (e.adjust_velocity->0).0))),
            ..e
        }
    } else {
        e
    }
}

/// What the velocity-override stage does to one entity.
pub open spec fn velocity_override_step(e: EntityData) -> EntityData {
    if e.velocity is Some && e.override_velocity is Some {
        EntityData {
            velocity: Some(
                Velocity(
                    Vec2 {
                        x: override_axis((e.velocity->0).0.x, (e.override_velocity->0).0),
                        y: override_axis((e.velocity->0).0.y, (e.override_velocity->0).1),
                    },
                ),
            ),
            ..e
        }
    } else {
        e
    }
}

/// What the angular-velocity-override stage does to one entity.
pub open spec fn angular_velocity_override_step(e: EntityData) -> EntityData {
    if e.angular_velocity is Some && e.override_angular_velocity is Some
        && (e.override_angular_velocity->0).0 is Some {
        EntityData {
            angular_velocity: Some(
                crate::components::AngularVelocity(((e.override_angular_velocity->0).0)->0),
            ),
            ..e
        }
    } else {
        e
    }
}

/// What the position-integration stage does to one entity: the velocity,
/// scaled by the tick duration, is added to the position.
pub open spec fn integrate_velocity_step(e: EntityData) -> EntityData {
    if e.velocity is Some && e.position is Some {
        EntityData {
            position: Some(
                Position(
                    v2_plus(
                        (e.position->0).0,
                        v2_scaled((e.velocity->0).0, PHYSICS_TIME_STEP as int),
                    ),
                ),
            ),
            ..e
        }
    } else {
        e
    }
}

/// What the rotation-integration stage does to one entity: the angular
/// velocity, scaled by the tick duration, is added to the rotation.
pub open spec fn integrate_angular_velocity_step(e: EntityData) -> EntityData {
    if e.angular_velocity is Some && e.rotation is Some {
        EntityData {
            rotation: Some(
                Rotation(
                    add_sat(
                        (e.rotation->0).0 as int,
                        mul_sat((e.angular_velocity->0).0 as int, PHYSICS_TIME_STEP as int),
                    ) as i64,
                ),
            ),
            ..e
        }
    } else {
        e
    }
}

/// Add each entity's persistent acceleration adjustment to its
/// acceleration accumulator.
pub fn apply_acceleration_adjustments(w: &mut World)
    ensures
        final(w)@.len() == old(w)@.len(),
        forall|i: int|
            0 <= i < old(w)@.len()
                ==> final(w)@[i] == acceleration_adjustment_step(old(w)@[i]),
{
    let n = w.entities.len();
    let mut i: usize = 0;
    while i < n
        invariant
            i <= n,
            n == w@.len(),
            w@.len() == old(w)@.len(),
            forall|j: int| 0 <= j < i ==> w@[j] == acceleration_adjustment_step(old(w)@[j]),
            forall|j: int| i <= j < n ==> w@[j] == old(w)@[j],
        decreases n - i,
    {
        let acc = w.entities[i].acceleration;
        let adj = w.entities[i].adjust_acceleration;
        if let (Some(a), Some(d)) = (acc, adj) {
            w.entities[i].acceleration = Some(Acceleration(a.0.plus(d.0)));
        }
        i = i + 1;
    }
}

/// Add the constant downward gravity vector to the acceleration of every
/// entity marked as subject to gravity.
pub fn apply_gravity(w: &mut World)
    ensures
        final(w)@.len() == old(w)@.len(),
        forall|i: int| 0 <= i < old(w)@.len() ==> final(w)@[i] == gravity_step(old(w)@[i]),
{
    let n = w.entities.len();
    let mut i: usize = 0;
    while i < n
        invariant
            i <= n,
            n == w@.len(),
            w@.len() == old(w)@.len(),
            forall|j: int| 0 <= j < i ==> w@[j] == gravity_step(old(w)@[j]),
            forall|j: int| i <= j < n ==> w@[j] == old(w)@[j],
        decreases n - i,
    {
        let acc = w.entities[i].acceleration;
        if let Some(a) = acc {
            if w.entities[i].gravity {
                w.entities[i].acceleration = Some(
                    Acceleration(a.0.plus(Vec2 { x: GRAVITY_X, y: GRAVITY_Y })),
                );
            }
        }
        i = i + 1;
    }
}

/// Apply per-axis quadratic drag: entities with a resistance coefficient
/// lose `v*v*r` of acceleration against their direction of motion on each
/// axis whose speed exceeds the rest threshold.
pub fn apply_resistance(w: &mut World)
    ensures
        final(w)@.len() == old(w)@.len(),
        forall|i: int| 0 <= i < old(w)@.len() ==> final(w)@[i] == resistance_step(old(w)@[i]),
{
    let n = w.entities.len();
    let mut i: usize = 0;
    while i < n
        invariant
            i <= n,
            n == w@.len(),
            w@.len() == old(w)@.len(),
            forall|j: int| 0 <= j < i ==> w@[j] == resistance_step(old(w)@[j]),
            forall|j: int| i <= j < n ==> w@[j] == old(w)@[j],
        decreases n - i,
    {
        let acc = w.entities[i].acceleration;
        let vel = w.entities[i].velocity;
        let res = w.entities[i].resistance;
        if let (Some(a), Some(v), Some(r)) = (acc, vel, res) {
            let ax = drag_axis_exec(a.0.x, v.0.x, r.0.x);
            let ay = drag_axis_exec(a.0.y, v.0.y, r.0.y);
            w.entities[i].acceleration = Some(Acceleration(Vec2 { x: ax, y: ay }));
        }
        i = i + 1;
    }
}

/// Apply per-axis constant friction: entities with a friction coefficient
/// lose a constant amount of acceleration against their direction of
/// motion on each axis whose speed exceeds the rest threshold.
pub fn apply_friction(w: &mut World)
    ensures
        final(w)@.len() == old(w)@.len(),
        forall|i: int| 0 <= i < old(w)@.len() ==> final(w)@[i] == friction_step(old(w)@[i]),
{
    let n = w.entities.len();
    let mut i: usize = 0;
    while i < n
        invariant
            i <= n,
            n == w@.len(),
            w@.len() == old(w)@.len(),
            forall|j: int| 0 <= j < i ==> w@[j] == friction_step(old(w)@[j]),
            forall|j: int| i <= j < n ==> w@[j] == old(w)@[j],
        decreases n - i,
    {
        let acc = w.entities[i].acceleration;
        let vel = w.entities[i].velocity;
        let fr = w.entities[i].friction;
        if let (Some(a), Some(v), Some(f)) = (acc, vel, fr) {
            let ax = friction_axis_exec(a.0.x, v.0.x, f.0.x);
            let ay = friction_axis_exec(a.0.y, v.0.y, f.0.y);
            w.entities[i].acceleration = Some(Acceleration(Vec2 { x: ax, y: ay }));
        }
        i = i + 1;
    }
}

/// Replace the acceleration on each axis where an override is present.
pub fn apply_acceleration_override(w: &mut World)
    ensures
        final(w)@.len() == old(w)@.len(),
        forall|i: int|
            0 <= i < old(w)@.len() ==> final(w)@[i] == acceleration_override_step(old(w)@[i]),
{
    let n = w.entities.len();
    let mut i: usize = 0;
    while i < n
        invariant
            i <= n,
            n == w@.len(),
            w@.len() == old(w)@.len(),
            forall|j: int| 0 <= j < i ==> w@[j] == acceleration_override_step(old(w)@[j]),
            forall|j: int| i <= j < n ==> w@[j] == old(w)@[j],
        decreases n - i,
    {
        let acc = w.entities[i].acceleration;
        let over = w.entities[i].override_acceleration;
        if let (Some(a), Some(o)) = (acc, over) {
            let x = if let Some(ox) = o.0 { ox } else { a.0.x };
            let y = if let Some(oy) = o.1 { oy } else { a.0.y };
            w.entities[i].acceleration = Some(Acceleration(Vec2 { x, y }));
        }
        i = i + 1;
    }
}

/// Integrate acceleration into velocity over one tick and reset the
/// accumulator: afterwards every entity that was integrated holds the
/// zero acceleration vector.
pub fn apply_accel(w: &mut World)
    ensures
        final(w)@.len() == old(w)@.len(),
        forall|i: int|
            0 <= i < old(w)@.len() ==> final(w)@[i] == integrate_acceleration_step(old(w)@[i]),
{
    let n = w.entities.len();
    let mut i: usize = 0;
    while i < n
        invariant
            i <= n,
            n == w@.len(),
            w@.len() == old(w)@.len(),
            forall|j: int| 0 <= j < i ==> w@[j] == integrate_acceleration_step(old(w)@[j]),
            forall|j: int| i <= j < n ==> w@[j] == old(w)@[j],
        decreases n - i,
    {
        let acc = w.entities[i].acceleration;
        let vel = w.entities[i].velocity;
        if let (Some(a), Some(v)) = (acc, vel) {
            let nv = v.0.plus(a.0.scaled(PHYSICS_TIME_STEP));
            w.entities[i].velocity = Some(Velocity(nv));
            w.entities[i].acceleration = Some(Acceleration(Vec2 { x: 0, y: 0 }));
        }
        i = i + 1;
    }
}

/// Add each entity's persistent velocity adjustment to its velocity.
pub fn apply_velocity_adjustments(w: &mut World)
    ensures
        final(w)@.len() == old(w)@.len(),
        forall|i: int|
            0 <= i < old(w)@.len() ==> final(w)@[i] == velocity_adjustment_step(old(w)@[i]),
{
    let n = w.entities.len();
    let mut i: usize = 0;
    while i < n
        invariant
            i <= n,
            n == w@.len(),
            w@.len() == old(w)@.len(),
            forall|j: int| 0 <= j < i ==> w@[j] == velocity_adjustment_step(old(w)@[j]),
            forall|j: int| i <= j < n ==> w@[j] == old(w)@[j],
        decreases n - i,
    {
        let vel = w.entities[i].velocity;
        let adj = w.entities[i].adjust_velocity;
        if let (Some(v), Some(d)) = (vel, adj) {
            w.entities[i].velocity = Some(Velocity(v.0.plus(d.0)));
        }
        i = i + 1;
    }
}

/// Replace the velocity on each axis where an override is present.
pub fn apply_velocity_override(w: &mut World)
    ensures
        final(w)@.len() == old(w)@.len(),
        forall|i: int|
            0 <= i < old(w)@.len() ==> final(w)@[i] == velocity_override_step(old(w)@[i]),
{
    let n = w.entities.len();
    let mut i: usize = 0;
    while i < n
        invariant
            i <= n,
            n == w@.len(),
            w@.len() == old(w)@.len(),
            forall|j: int| 0 <= j < i ==> w@[j] == velocity_override_step(old(w)@[j]),
            forall|j: int| i <= j < n ==> w@[j] == old(w)@[j],
        decreases n - i,
    {
        let vel = w.entities[i].velocity;
        let over = w.entities[i].override_velocity;
        if let (Some(v), Some(o)) = (vel, over) {
            let x = if let Some(ox) = o.0 { ox } else { v.0.x };
            let y = if let Some(oy) = o.1 { oy } else { v.0.y };
            w.entities[i].velocity = Some(Velocity(Vec2 { x, y }));
        }
        i = i + 1;
    }
}

/// Replace the angular velocity where an override value is present.
pub fn apply_angular_velocity_override(w: &mut World)
    ensures
        final(w)@.len() == old(w)@.len(),
        forall|i: int|
            0 <= i < old(w)@.len() ==> final(w)@[i] == angular_velocity_override_step(old(w)@[i]),
{
    let n = w.entities.len();
    let mut i: usize = 0;
    while i < n
        invariant
            i <= n,
            n == w@.len(),
            w@.len() == old(w)@.len(),
            forall|j: int| 0 <= j < i ==> w@[j] == angular_velocity_override_step(old(w)@[j]),
            forall|j: int| i <= j < n ==> w@[j] == old(w)@[j],
        decreases n - i,
    {
        let av = w.entities[i].angular_velocity;
        let over = w.entities[i].override_angular_velocity;
        if let (Some(_), Some(o)) = (av, over) {
            if let Some(forced) = o.0 {
                w.entities[i].angular_velocity = Some(
                    crate::components::AngularVelocity(forced),
                );
            }
        }
        i = i + 1;
    }
}

/// Integrate velocity into position over one tick.
pub fn apply_velocity(w: &mut World)
    ensures
        final(w)@.len() == old(w)@.len(),
        forall|i: int|
            0 <= i < old(w)@.len() ==> final(w)@[i] == integrate_velocity_step(old(w)@[i]),
{
    let n = w.entities.len();
    let mut i: usize = 0;
    while i < n
        invariant
            i <= n,
            n == w@.len(),
            w@.len() == old(w)@.len(),
            forall|j: int| 0 <= j < i ==> w@[j] == integrate_velocity_step(old(w)@[j]),
            forall|j: int| i <= j < n ==> w@[j] == old(w)@[j],
        decreases n - i,
    {
        let vel = w.entities[i].velocity;
        let pos = w.entities[i].position;
        if let (Some(v), Some(p)) = (vel, pos) {
            w.entities[i].position = Some(Position(p.0.plus(v.0.scaled(PHYSICS_TIME_STEP))));
        }
        i = i + 1;
    }
}

/// Integrate angular velocity into rotation over one tick.
pub fn apply_angular_velocity(w: &mut World)
    ensures
        final(w)@.len() == old(w)@.len(),
        forall|i: int|
            0 <= i < old(w)@.len()
                ==> final(w)@[i] == integrate_angular_velocity_step(old(w)@[i]),
{
    let n = w.entities.len();
    let mut i: usize = 0;
    while i < n
        invariant
            i <= n,
            n == w@.len(),
            w@.len() == old(w)@.len(),
            forall|j: int| 0 <= j < i ==> w@[j] == integrate_angular_velocity_step(old(w)@[j]),
            forall|j: int| i <= j < n ==> w@[j] == old(w)@[j],
        decreases n - i,
    {
        let av = w.entities[i].angular_velocity;
        let rot = w.entities[i].rotation;
        if let (Some(a), Some(r)) = (av, rot) {
            w.entities[i].rotation = Some(
                Rotation(fx_add(r.0, fx_mul(a.0, PHYSICS_TIME_STEP))),
            );
        }
        i = i + 1;
    }
}

/// One axis of quadratic drag, as executable code.
fn drag_axis_exec(a: i64, v: i64, r: i64) -> (res: i64)
    ensures
        res as int == drag_axis(a as int, v as int, r as int),
{
    if v > MU {
        fx_sub(a, fx_mul(fx_mul(v, v), r))
    } else if v < -MU {
        fx_add(a, fx_mul(fx_mul(v, v), r))
    } else {
        a
    }
}

/// One axis of constant friction, as executable code.
fn friction_axis_exec(a: i64, v: i64, f: i64) -> (res: i64)
    ensures
        res as int == friction_axis(a as int, v as int, f as int),
{
    if v > MU {
        fx_sub(a, f)
    } else if v < -MU {
        fx_add(a, f)
    } else {
        a
    }
}

} // verus!
