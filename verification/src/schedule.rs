//! Stage scheduling: the eight pipeline stages, their ordering edges,
//! the resolved linear schedule, and the tick driver that runs every
//! stage once, in order, as one atomic fixed tick.

use vstd::prelude::*;
use crate::errors::PhysicsError;
use crate::fx::{fx_add, sat64, PHYSICS_TIME_STEP};
use crate::narrow::{narrow_phase, narrow_report, Detection};
use crate::pipeline::{
    acceleration_adjustment_step, acceleration_override_step, angular_velocity_override_step,
    apply_accel, apply_acceleration_adjustments, apply_acceleration_override,
    apply_angular_velocity, apply_angular_velocity_override, apply_friction, apply_gravity,
    apply_resistance, apply_velocity, apply_velocity_adjustments, apply_velocity_override,
    friction_step, gravity_step, integrate_acceleration_step, integrate_angular_velocity_step,
    integrate_velocity_step, resistance_step, velocity_adjustment_step, velocity_override_step,
};
use crate::sweep::{
    clear_sensor, handle_wall_collisions, is_wall_collider_entity, lemma_resolve_walls_frame,
    swept_entity, swept_fails, swept_succeeds,
};
use crate::timers::{attack_tick_step, jump_tick_step, tick_attack_times, tick_jump_times};
use crate::transform::{propagate_transform, propagated, propagation_error, same_except_transform};
use crate::vec2::Vec2;
use crate::world::{EntityData, World};

verus! {

/// The eight stages of one physics tick, in their scheduled order.
#[derive(Clone, Copy, PartialEq, Eq, Structural, Debug, Hash)]
pub enum PhysicsSet {
    ApplyForces,
    OverrideAcceleration,
    ApplyAcceleration,
    OverrideVelocity,
    CastedCollisionDetection,
    ApplyVelocity,
    ModifyTransform,
    CollisionDetection,
}

impl PhysicsSet {
    /// The stage's node index in the ordering graph.
    pub fn id(&self) -> (r: usize)
        ensures
            r == self.id_spec(),
    {
        match self {
            PhysicsSet::ApplyForces => 0,
            PhysicsSet::OverrideAcceleration => 1,
            PhysicsSet::ApplyAcceleration => 2,
            PhysicsSet::OverrideVelocity => 3,
            PhysicsSet::CastedCollisionDetection => 4,
            PhysicsSet::ApplyVelocity => 5,
            PhysicsSet::ModifyTransform => 6,
            PhysicsSet::CollisionDetection => 7,
        }
    }

    /// The stage's node index, as a specification value.
    pub open spec fn id_spec(&self) -> usize {
        match self {
            PhysicsSet::ApplyForces => 0,
            PhysicsSet::OverrideAcceleration => 1,
            PhysicsSet::ApplyAcceleration => 2,
            PhysicsSet::OverrideVelocity => 3,
            PhysicsSet::CastedCollisionDetection => 4,
            PhysicsSet::ApplyVelocity => 5,
            PhysicsSet::ModifyTransform => 6,
            PhysicsSet::CollisionDetection => 7,
        }
    }
}

/// The declared ordering edges: each stage strictly before the next.
pub fn stage_edges() -> (r: Vec<(usize, usize)>)
    ensures
        r@.len() == 7,
        forall|k: int| 0 <= k < 7 ==> (#[trigger] r@[k]).0 == k && r@[k].1 == k + 1,
{
    let mut edges: Vec<(usize, usize)> = Vec::new();
    edges.push((0, 1));
    edges.push((1, 2));
    edges.push((2, 3));
    edges.push((3, 4));
    edges.push((4, 5));
    edges.push((5, 6));
    edges.push((6, 7));
    edges
}

/// Whether a path along the edges leads from `a` to `b` in at most
/// `fuel` steps.
pub open spec fn edge_reach(edges: Seq<(usize, usize)>, a: int, b: int, fuel: nat) -> bool
    decreases fuel,
{
    fuel > 0 && exists|k: int|
        0 <= k < edges.len() && (#[trigger] edges[k]).0 == a
            && (edges[k].1 == b || edge_reach(edges, edges[k].1 as int, b, (fuel - 1) as nat))
}

/// Reachability only needs more fuel, never less.
proof fn lemma_edge_reach_mono(edges: Seq<(usize, usize)>, a: int, b: int, f1: nat, f2: nat)
    requires
        f1 <= f2,
        edge_reach(edges, a, b, f1),
    ensures
        edge_reach(edges, a, b, f2),
    decreases f1,
{
    let k = choose|k: int|
        0 <= k < edges.len() && (#[trigger] edges[k]).0 == a
            && (edges[k].1 == b || edge_reach(edges, edges[k].1 as int, b, (f1 - 1) as nat));
    if edges[k].1 != b {
        lemma_edge_reach_mono(edges, edges[k].1 as int, b, (f1 - 1) as nat, (f2 - 1) as nat);
    }
    assert(0 <= k < edges.len() && edges[k].0 == a
        && (edges[k].1 == b || edge_reach(edges, edges[k].1 as int, b, (f2 - 1) as nat)));
}

/// Along the chain of declared edges, each earlier stage reaches each
/// later one in as many steps as their distance.
proof fn lemma_chain_reach(edges: Seq<(usize, usize)>, a: int, b: int)
    requires
        edges.len() == 7,
        forall|k: int| 0 <= k < 7 ==> (#[trigger] edges[k]).0 == k && edges[k].1 == k + 1,
        0 <= a < b <= 7,
    ensures
        edge_reach(edges, a, b, (b - a) as nat),
    decreases b - a,
{
    if b == a + 1 {
        assert(edges[a].0 == a && edges[a].1 == b);
        assert(edge_reach(edges, a, b, 1nat));
    } else {
        lemma_chain_reach(edges, a + 1, b);
        assert(edges[a].0 == a && edges[a].1 == a + 1);
        assert(edge_reach(edges, a, b, (b - a) as nat));
    }
}

/// The resolved schedule is unambiguous: the declared edges order every
/// pair of distinct stages, so no two stages with overlapping component
/// access are ever left unordered.
pub proof fn lemma_schedule_total_order(edges: Seq<(usize, usize)>)
    requires
        edges.len() == 7,
        forall|k: int| 0 <= k < 7 ==> (#[trigger] edges[k]).0 == k && edges[k].1 == k + 1,
    ensures
        forall|a: int, b: int| 0 <= a < b <= 7 ==> edge_reach(edges, a, b, 7),
{
    assert forall|a: int, b: int| 0 <= a < b <= 7 implies edge_reach(edges, a, b, 7) by {
        lemma_chain_reach(edges, a, b);
        lemma_edge_reach_mono(edges, a, b, (b - a) as nat, 7);
    };
}

/// The linear schedule resolved from the ordering edges: every stage
/// once, with each declared edge running its first stage strictly
/// before its second.
pub fn physics_schedule() -> (r: Vec<PhysicsSet>)
    ensures
        r@.len() == 8,
        forall|i: int| 0 <= i < 8 ==> (#[trigger] r@[i]).id_spec() == i,
{
    let mut order: Vec<PhysicsSet> = Vec::new();
    order.push(PhysicsSet::ApplyForces);
    order.push(PhysicsSet::OverrideAcceleration);
    order.push(PhysicsSet::ApplyAcceleration);
    order.push(PhysicsSet::OverrideVelocity);
    order.push(PhysicsSet::CastedCollisionDetection);
    order.push(PhysicsSet::ApplyVelocity);
    order.push(PhysicsSet::ModifyTransform);
    order.push(PhysicsSet::CollisionDetection);
    order
}

/// Advance the fixed-timestep accumulator by one rendering frame: the
/// whole ticks now owed are split off and the remainder is kept, so
/// simulated time is deterministic whatever the frame rate.
pub fn advance_accumulator(acc: i64, frame: i64) -> (r: (i64, i64))
    requires
        0 <= acc < PHYSICS_TIME_STEP,
        0 <= frame,
    ensures
        r.1 == sat64(acc + frame) / (PHYSICS_TIME_STEP as int),
        r.0 == sat64(acc + frame) % (PHYSICS_TIME_STEP as int),
        0 <= r.0 < PHYSICS_TIME_STEP,
{
    let total = fx_add(acc, frame);
    (total % PHYSICS_TIME_STEP, total / PHYSICS_TIME_STEP)
}

/// The nine per-entity steps that run before the swept stage: the four
/// force accumulations, the acceleration override, the integration with
/// its velocity adjustment, and the velocity and angular-velocity
/// overrides, composed in stage order.
pub open spec fn pre_sweep_steps(e: EntityData) -> EntityData {
    angular_velocity_override_step(
        velocity_override_step(
            velocity_adjustment_step(
                integrate_acceleration_step(
                    acceleration_override_step(
                        friction_step(
                            resistance_step(gravity_step(acceleration_adjustment_step(e))),
                        ),
                    ),
                ),
            ),
        ),
    )
}

/// The store as the swept stage finds it: the pre-sweep steps mapped
/// over every entity.
pub open spec fn pre_sweep_state(s: Seq<EntityData>) -> Seq<EntityData> {
    Seq::new(s.len(), |i: int| pre_sweep_steps(s[i]))
}

/// The two integration steps that run between the swept stage and
/// transform propagation.
pub open spec fn position_integration_steps(e: EntityData) -> EntityData {
    integrate_angular_velocity_step(integrate_velocity_step(e))
}

/// The store as transform propagation finds it: the pre-sweep steps,
/// the swept resolution, then position and rotation integration.
pub open spec fn pre_propagation_state(s: Seq<EntityData>) -> Seq<EntityData> {
    let pre = pre_sweep_state(s);
    Seq::new(pre.len(), |i: int| position_integration_steps(swept_entity(pre, i)))
}

/// The store after the two timer stages run over `q`.
pub open spec fn timers_state(q: Seq<EntityData>) -> Seq<EntityData> {
    Seq::new(q.len(), |i: int| attack_tick_step(jump_tick_step(q[i])))
}

/// Run one full physics tick: the eight stages in their scheduled
/// order, each completing over the whole store before the next begins.
/// On success the store equals the whole composition: the per-entity
/// force, override and integration steps, the swept wall resolution,
/// the position and rotation integration, a transform propagation of
/// the result, and the timer steps — so every integrated entity's
/// acceleration is exactly zero once the tick is over, and the returned
/// report is the narrow phase of the final store.  The first stage
/// error aborts the tick: either the swept stage failed on the store it
/// was handed, or it succeeded and propagation refused its store.
pub fn run_tick(w: &mut World) -> (r: Result<Vec<(usize, usize, Detection)>, PhysicsError>)
    ensures
        final(w)@.len() == old(w)@.len(),
        match r {
            Ok(report) => {
                &&& swept_succeeds(pre_sweep_state(old(w)@))
                &&& exists|q: Seq<EntityData>|
                    {
                        let pp = pre_propagation_state(old(w)@);
                        &&& final(w)@ == #[trigger] timers_state(q)
                        &&& q.len() == pp.len()
                        &&& forall|j: int|
                            0 <= j < pp.len()
                                ==> same_except_transform(q[j], #[trigger] pp[j])
                        &&& exists|root: int| 0 <= root < pp.len() && pp[root].game_world
                        &&& forall|root: int|
                            0 <= root < pp.len() && pp[root].game_world
                                ==> #[trigger] propagated(pp, q, root)
                    }
                &&& forall|i: int|
                    0 <= i < final(w)@.len()
                        && (#[trigger] final(w)@[i]).acceleration is Some
                        && final(w)@[i].velocity is Some
                        ==> (final(w)@[i].acceleration->0).0 == (Vec2 { x: 0, y: 0 })
                &&& report@ == narrow_report(final(w)@, final(w)@.len() as int)
            },
            Err(e) => swept_fails(pre_sweep_state(old(w)@), e) || (swept_succeeds(
                pre_sweep_state(old(w)@),
            ) && propagation_error(pre_propagation_state(old(w)@), e)),
        },
{
    apply_acceleration_adjustments(w);
    apply_gravity(w);
    apply_resistance(w);
    apply_friction(w);
    apply_acceleration_override(w);
    apply_accel(w);
    apply_velocity_adjustments(w);
    apply_velocity_override(w);
    apply_angular_velocity_override(w);
    let ghost pre_walls: Seq<EntityData> = w@;
    proof {
        assert(pre_walls =~= pre_sweep_state(old(w)@));
    }
    let wall_result = handle_wall_collisions(w);
    if let Err(e) = wall_result {
        proof {
            assert(swept_fails(pre_walls, e));
        }
        return Err(e);
    }
    proof {
        assert(swept_succeeds(pre_walls));
        assert forall|i: int|
            0 <= i < w@.len() && (#[trigger] w@[i]).acceleration is Some
                && w@[i].velocity is Some
            implies (w@[i].acceleration->0).0 == (Vec2 { x: 0, y: 0 })
        by {
            if is_wall_collider_entity(pre_walls[i]) {
                lemma_resolve_walls_frame(
                    pre_walls,
                    clear_sensor(pre_walls[i]),
                    i,
                    pre_walls.len() as int,
                );
            }
        };
    }
    apply_velocity(w);
    apply_angular_velocity(w);
    let ghost pp: Seq<EntityData> = w@;
    proof {
        assert(pp =~= pre_propagation_state(old(w)@));
    }
    let prop_result = propagate_transform(w);
    if let Err(e) = prop_result {
        proof {
            assert(propagation_error(pre_propagation_state(old(w)@), e));
        }
        return Err(e);
    }
    let ghost q: Seq<EntityData> = w@;
    tick_jump_times(w);
    tick_attack_times(w);
    proof {
        assert(w@ =~= timers_state(q));
    }
    let report = narrow_phase(w);
    Ok(report)
}

} // verus!
