//! The component store: entities and their components.
//!
//! An entity is a stable index into the store's vector of records; each
//! record holds every component the entity may carry, `None` (or `false`
//! for markers) where the component is absent.  A stage "queries" the
//! store by filtering the records that carry all the components it needs.

use vstd::prelude::*;
use crate::components::{
    Acceleration, AdjustAcceleration, AdjustVelocity, AngularVelocity, Friction, GlobalPosition,
    GlobalRotation, Health, OverrideAcceleration, OverrideAngularVelocity, OverrideVelocity,
    Position, Resistance, Rotation, Shape, TwoDimTrans, Velocity, WallSensor,
};
use crate::errors::PhysicsError;
use crate::timers::{Attacker, Jumper};

verus! {

/// One entity's components.  `None` and `false` mean the entity does not
/// carry that component.
pub struct EntityData {
    pub position: Option<Position>,
    pub rotation: Option<Rotation>,
    pub velocity: Option<Velocity>,
    pub angular_velocity: Option<AngularVelocity>,
    pub acceleration: Option<Acceleration>,
    pub resistance: Option<Resistance>,
    pub friction: Option<Friction>,
    pub adjust_acceleration: Option<AdjustAcceleration>,
    pub adjust_velocity: Option<AdjustVelocity>,
    pub override_acceleration: Option<OverrideAcceleration>,
    pub override_velocity: Option<OverrideVelocity>,
    pub override_angular_velocity: Option<OverrideAngularVelocity>,
    pub shape: Option<Shape>,
    pub wall_sensor: Option<WallSensor>,
    pub transform: Option<TwoDimTrans>,
    pub global_position: Option<GlobalPosition>,
    pub global_rotation: Option<GlobalRotation>,
    pub health: Option<Health>,
    pub jumper: Option<Jumper>,
    pub attacker: Option<Attacker>,
    /// Marker: subject to constant downward acceleration.
    pub gravity: bool,
    /// Marker: participates in narrow-phase detection.
    pub collider: bool,
    /// Marker: static obstacle for swept resolution.
    pub wall: bool,
    /// Marker: mover in swept wall-collision resolution.
    pub wall_collider: bool,
    /// Marker: the designated root of the transform hierarchy.
    pub game_world: bool,
    /// Ordered children in the transform hierarchy.
    pub children: Vec<usize>,
}

impl EntityData {
    /// A record with no components at all.
    pub fn empty() -> (r: EntityData)
        ensures
            r.position == Option::<Position>::None,
            r.rotation == Option::<Rotation>::None,
            r.velocity == Option::<Velocity>::None,
            r.angular_velocity == Option::<AngularVelocity>::None,
            r.acceleration == Option::<Acceleration>::None,
            r.resistance == Option::<Resistance>::None,
            r.friction == Option::<Friction>::None,
            r.adjust_acceleration == Option::<AdjustAcceleration>::None,
            r.adjust_velocity == Option::<AdjustVelocity>::None,
            r.override_acceleration matches Option::None,
            r.override_velocity matches Option::None,
            r.override_angular_velocity matches Option::None,
            r.shape matches Option::None,
            r.wall_sensor == Option::<WallSensor>::None,
            r.transform == Option::<TwoDimTrans>::None,
            r.global_position == Option::<GlobalPosition>::None,
            r.global_rotation == Option::<GlobalRotation>::None,
            r.health == Option::<Health>::None,
            r.jumper == Option::<Jumper>::None,
            r.attacker == Option::<Attacker>::None,
            !r.gravity && !r.collider && !r.wall && !r.wall_collider && !r.game_world,
            r.children@ == Seq::<usize>::empty(),
    {
        EntityData {
            position: None,
            rotation: None,
            velocity: None,
            angular_velocity: None,
            acceleration: None,
            resistance: None,
            friction: None,
            adjust_acceleration: None,
            adjust_velocity: None,
            override_acceleration: None,
            override_velocity: None,
            override_angular_velocity: None,
            shape: None,
            wall_sensor: None,
            transform: None,
            global_position: None,
            global_rotation: None,
            health: None,
            jumper: None,
            attacker: None,
            gravity: false,
            collider: false,
            wall: false,
            wall_collider: false,
            game_world: false,
            children: Vec::new(),
        }
    }
}

/// True when `a` and `b` agree on every component except the children
/// list.
pub open spec fn same_except_children(a: EntityData, b: EntityData) -> bool {
    &&& a.position == b.position
    &&& a.rotation == b.rotation
    &&& a.velocity == b.velocity
    &&& a.angular_velocity == b.angular_velocity
    &&& a.acceleration == b.acceleration
    &&& a.resistance == b.resistance
    &&& a.friction == b.friction
    &&& a.adjust_acceleration == b.adjust_acceleration
    &&& a.adjust_velocity == b.adjust_velocity
    &&& a.override_acceleration == b.override_acceleration
    &&& a.override_velocity == b.override_velocity
    &&& a.override_angular_velocity == b.override_angular_velocity
    &&& a.shape == b.shape
    &&& a.wall_sensor == b.wall_sensor
    &&& a.transform == b.transform
    &&& a.global_position == b.global_position
    &&& a.global_rotation == b.global_rotation
    &&& a.health == b.health
    &&& a.jumper == b.jumper
    &&& a.attacker == b.attacker
    &&& a.gravity == b.gravity
    &&& a.collider == b.collider
    &&& a.wall == b.wall
    &&& a.wall_collider == b.wall_collider
    &&& a.game_world == b.game_world
}

/// The component store.
pub struct World {
    pub entities: Vec<EntityData>,
}

impl View for World {
    type V = Seq<EntityData>;

    open spec fn view(&self) -> Seq<EntityData> {
        self.entities@
    }
}

impl World {
    /// An empty store.
    pub fn new() -> (r: World)
        ensures
            r@ == Seq::<EntityData>::empty(),
    {
        World { entities: Vec::new() }
    }

    /// Number of entities ever spawned (indices run from 0 to this).
    pub fn len(&self) -> (r: usize)
        ensures
            r == self@.len(),
    {
        self.entities.len()
    }

    /// Spawn an entity with the given components; its index is returned.
    pub fn spawn(&mut self, e: EntityData) -> (id: usize)
        ensures
            final(self)@ == old(self)@.push(e),
            id == old(self)@.len(),
    {
        let id = self.entities.len();
        self.entities.push(e);
        id
    }

    /// Borrow the record of entity `i`.
    pub fn entity(&self, i: usize) -> (r: &EntityData)
        requires
            i < self@.len(),
        ensures
            *r == self@[i as int],
    {
        &self.entities[i]
    }

    /// Append `child` to the children of `parent`.  Fails when either
    /// index is out of range.
    pub fn push_child(&mut self, parent: usize, child: usize) -> (r: Result<(), PhysicsError>)
        ensures
            final(self)@.len() == old(self)@.len(),
            match r {
                Ok(()) => {
                    &&& parent < old(self)@.len() && child < old(self)@.len()
                    &&& same_except_children(final(self)@[parent as int], old(self)@[parent as int])
                    &&& final(self)@[parent as int].children@
                        == old(self)@[parent as int].children@.push(child)
                    &&& forall|i: int|
                        0 <= i < old(self)@.len() && i != parent
                            ==> final(self)@[i] == old(self)@[i]
                },
                Err(_) => final(self)@ == old(self)@
                    && (parent >= old(self)@.len() || child >= old(self)@.len()),
            },
    {
        if parent >= self.entities.len() {
            return Err(PhysicsError::MissingComponent { entity: parent });
        }
        if child >= self.entities.len() {
            return Err(PhysicsError::MissingComponent { entity: child });
        }
        self.entities[parent].children.push(child);
        Ok(())
    }
}

} // verus!
