//! Laws of the pipeline, stated and proved once and for all inputs.

use vstd::prelude::*;
use vstd::arithmetic::div_mod::lemma_div_is_ordered;
use vstd::math::abs;
use crate::components::Acceleration;
use crate::fx::{
    add_sat, lemma_mul_sat_nonneg, lemma_mul_sat_nonpos, mul_sat, MU, PHYSICS_TIME_STEP, SCALE,
};
use crate::pipeline::{
    acceleration_adjustment_step, acceleration_override_step, drag_axis, friction_axis,
    friction_step, gravity_step, integrate_acceleration_step, resistance_step,
    velocity_override_step,
};
use crate::vec2::Vec2;
use crate::world::EntityData;

verus! {

/// The velocity an axis carries out of a tick in which only quadratic
/// drag and constant friction act on it: the drag contributions are
/// accumulated from a zero accumulator and integrated over one tick.
pub open spec fn drag_tick_axis(v: int, r: int, f: int) -> int {
    add_sat(v, mul_sat(friction_axis(drag_axis(0, v, r), v, f), PHYSICS_TIME_STEP as int))
}

/// Force reset: whatever the accumulator holds, the integration stage
/// leaves every integrated entity with the zero acceleration vector.
pub proof fn law_force_reset(e: EntityData)
    requires
        e.acceleration is Some,
        e.velocity is Some,
    ensures
        integrate_acceleration_step(e).acceleration == Some(
            Acceleration(Vec2 { x: 0, y: 0 }),
        ),
{
}

/// An axis at rest stays exactly at rest: once its speed is within the
/// rest threshold, a tick of drag and friction alone does not move it,
/// so it stays within the threshold forever and never flips sign.
pub proof fn law_drag_rest(v: int, r: int, f: int)
    requires
        abs(v) <= MU,
    ensures
        drag_tick_axis(v, r, f) == v,
        abs(drag_tick_axis(v, r, f)) <= MU,
{
}

/// An axis in motion under drag and friction alone never accelerates in
/// its direction of motion, and as long as one tick's contribution does
/// not overshoot twice the current speed, its speed never grows.
/// Without the overshoot bound a large drag step can throw the axis past
/// zero onto the other side, faster than before.
pub proof fn law_no_oscillation_step(v: int, r: int, f: int)
    requires
        -(i64::MAX as int) <= v <= i64::MAX as int,
        0 <= r <= i64::MAX as int,
        0 <= f <= i64::MAX as int,
        abs(v) > MU,
        -(2 * abs(v)) <= mul_sat(
            friction_axis(drag_axis(0, v, r), v, f),
            PHYSICS_TIME_STEP as int,
        ) <= 2 * abs(v),
    ensures
        abs(drag_tick_axis(v, r, f)) <= abs(v),
        v > MU ==> drag_tick_axis(v, r, f) <= v,
        v < -MU ==> drag_tick_axis(v, r, f) >= v,
        ({
            let d = mul_sat(friction_axis(drag_axis(0, v, r), v, f), PHYSICS_TIME_STEP as int);
            f * PHYSICS_TIME_STEP >= SCALE && -(2 * abs(v)) < d < 2 * abs(v)
                ==> abs(drag_tick_axis(v, r, f)) < abs(v)
        }),
{
    let t = mul_sat(mul_sat(v, v), r);
    assert(0 <= mul_sat(v, v)) by {
        if v >= 0 {
            lemma_mul_sat_nonneg(v, v);
        } else {
            assert(0 <= v * v) by (nonlinear_arith);
        }
    };
    lemma_mul_sat_nonneg(mul_sat(v, v), r);
    let a = friction_axis(drag_axis(0, v, r), v, f);
    if v > MU {
        assert(a <= 0);
        lemma_mul_sat_nonpos(a, PHYSICS_TIME_STEP as int);
        if f * PHYSICS_TIME_STEP >= SCALE {
            lemma_friction_bites(a, f);
        }
    } else {
        assert(a >= 0);
        lemma_mul_sat_nonneg(a, PHYSICS_TIME_STEP as int);
        if f * PHYSICS_TIME_STEP >= SCALE {
            lemma_friction_bites_up(a, f);
        }
    }
}

/// When one tick of the friction alone spans at least one grid unit, the
/// downward acceleration moves the velocity by at least one unit.
proof fn lemma_friction_bites(a: int, f: int)
    requires
        0 <= f <= i64::MAX as int,
        a <= -f,
        f * PHYSICS_TIME_STEP >= SCALE,
    ensures
        mul_sat(a, PHYSICS_TIME_STEP as int) <= -1,
{
    assert(a * PHYSICS_TIME_STEP <= -(f * PHYSICS_TIME_STEP)) by (nonlinear_arith)
        requires
            a <= -f,
            0 <= f,
            PHYSICS_TIME_STEP > 0,
    ;
    lemma_div_is_ordered(SCALE as int, -(a * PHYSICS_TIME_STEP), SCALE as int);
}

/// The mirrored direction of `lemma_friction_bites`.
proof fn lemma_friction_bites_up(a: int, f: int)
    requires
        0 <= f <= i64::MAX as int,
        a >= f,
        f * PHYSICS_TIME_STEP >= SCALE,
    ensures
        mul_sat(a, PHYSICS_TIME_STEP as int) >= 1,
{
    assert(a * PHYSICS_TIME_STEP >= f * PHYSICS_TIME_STEP) by (nonlinear_arith)
        requires
            a >= f,
            0 <= f,
            PHYSICS_TIME_STEP > 0,
    ;
    lemma_div_is_ordered(SCALE as int, a * PHYSICS_TIME_STEP, SCALE as int);
}

/// The per-entity pipeline of a tick, restricted to an entity on which
/// only drag and friction act, moves each velocity axis exactly as
/// `drag_tick_axis` says: the force stages, the override stage and the
/// integration stage compose to the drag step.
pub proof fn law_drag_only_pipeline(e: EntityData)
    requires
        e.acceleration == Some(Acceleration(Vec2 { x: 0, y: 0 })),
        e.velocity is Some,
        e.resistance is Some,
        e.friction is Some,
        !e.gravity,
        e.adjust_acceleration is None,
        e.override_acceleration is None,
    ensures
        ({
            let out = integrate_acceleration_step(
                acceleration_override_step(
                    friction_step(
                        resistance_step(gravity_step(acceleration_adjustment_step(e))),
                    ),
                ),
            );
            &&& out.velocity matches Some(nv) && nv.0.x as int == drag_tick_axis(
                (e.velocity->0).0.x as int,
                (e.resistance->0).0.x as int,
                (e.friction->0).0.x as int,
            ) && nv.0.y as int == drag_tick_axis(
                (e.velocity->0).0.y as int,
                (e.resistance->0).0.y as int,
                (e.friction->0).0.y as int,
            )
            &&& out.acceleration == Some(Acceleration(Vec2 { x: 0, y: 0 }))
        }),
{
}

/// Override idempotence: forcing the velocity override twice in one tick
/// leaves exactly what forcing it once leaves — the override replaces,
/// it never adds.
pub proof fn law_override_idempotent(e: EntityData)
    ensures
        velocity_override_step(velocity_override_step(e)) == velocity_override_step(e),
{
}

} // verus!
