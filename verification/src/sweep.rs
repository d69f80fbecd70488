//! Swept collision between a moving rectangle and a static one.
//!
//! The test advances both rectangles by one tick of their velocity and
//! checks whether the advanced ("cast") rectangles overlap.  If they do,
//! the axis on which contact is most imminent is selected from the
//! current separating relationship of the two rectangles, and the contact
//! direction on that axis is reported.

use vstd::prelude::*;
use crate::components::{Position, Shape, Velocity, WallSensor};
use crate::errors::PhysicsError;
use crate::fx::{add_sat, fx_add, fx_mul, fx_sub, mul_sat, sat64, sub_sat, wide_mul, HALF, MU,
    PHYSICS_TIME_STEP};
use crate::geometry::{aabb_collision, aabb_overlap};
use crate::vec2::{v2_plus, v2_scaled, Vec2};
use crate::world::{EntityData, World};

verus! {

/// The side of the moving rectangle on which contact happens.
#[derive(Clone, Copy, PartialEq, Eq, Structural, Debug)]
pub enum ContactDir {
    /// Contact on the right side: the mover is to the left of the
    /// obstacle.
    Right,
    /// Contact on the left side: the mover is to the right of the
    /// obstacle.
    Left,
    /// Contact above: the mover is below the obstacle.
    Up,
    /// Contact below: the mover is above the obstacle.
    Down,
}

/// Compare two pseudo times-to-contact given as fixed-point fractions.
/// A zero denominator means no approach on that axis and counts as
/// infinitely late, never smaller than anything.
pub open spec fn ratio_lt(an: int, ad: int, bn: int, bd: int) -> bool {
    if ad == 0 {
        false
    } else if bd == 0 {
        true
    } else if ad * bd > 0 {
        an * bd < bn * ad
    } else {
        an * bd > bn * ad
    }
}

/// The horizontal contact candidate: if the mover lies entirely to one
/// side of the obstacle on the x axis, the contact direction on that axis
/// together with the signed gap and the relative velocity closing it.
pub open spec fn h_candidate(p1: Vec2, s1: Vec2, v1: Vec2, p2: Vec2, s2: Vec2, v2: Vec2)
    -> Option<(ContactDir, int, int)> {
    if p1.x >= p2.x + s2.x {
        Some((ContactDir::Left, sat64(p2.x + s2.x - p1.x), sat64(v1.x - v2.x)))
    } else if p1.x + s1.x <= p2.x {
        Some((ContactDir::Right, sat64(p2.x - (p1.x + s1.x)), sat64(v1.x - v2.x)))
    } else {
        None
    }
}

/// The vertical contact candidate, as `h_candidate` for the y axis.
pub open spec fn v_candidate(p1: Vec2, s1: Vec2, v1: Vec2, p2: Vec2, s2: Vec2, v2: Vec2)
    -> Option<(ContactDir, int, int)> {
    if p1.y <= p2.y - s2.y {
        Some((ContactDir::Up, sat64(p2.y - s2.y - p1.y), sat64(v1.y - v2.y)))
    } else if p1.y - s1.y >= p2.y {
        Some((ContactDir::Down, sat64(p2.y - (p1.y - s1.y)), sat64(v1.y - v2.y)))
    } else {
        None
    }
}

/// What the swept test reports for two rectangles given by upper-left
/// corner, size and velocity: no contact when the cast rectangles do not
/// overlap; otherwise the direction of the more imminent axis candidate;
/// an error when the cast rectangles overlap but neither axis separated
/// the rectangles before the motion.
pub open spec fn casted_collision_spec(
    p1: Vec2, s1: Vec2, v1: Vec2, p2: Vec2, s2: Vec2, v2: Vec2,
) -> Result<Option<ContactDir>, PhysicsError> {
    let cast1 = v2_plus(p1, v2_scaled(v1, PHYSICS_TIME_STEP as int));
    let cast2 = v2_plus(p2, v2_scaled(v2, PHYSICS_TIME_STEP as int));
    if !aabb_overlap(cast1, s1, cast2, s2) {
        Ok(None)
    } else {
        match (h_candidate(p1, s1, v1, p2, s2, v2), v_candidate(p1, s1, v1, p2, s2, v2)) {
            (Some((hd, hn, hdn)), Some((vd, vn, vdn))) => Ok(
                Some(if ratio_lt(hn, hdn, vn, vdn) { hd } else { vd }),
            ),
            (Some((hd, _, _)), None) => Ok(Some(hd)),
            (None, Some((vd, _, _))) => Ok(Some(vd)),
            (None, None) => Err(PhysicsError::NoContactAxis),
        }
    }
}

/// Compare the two candidates' pseudo times-to-contact.
fn ratio_lt_exec(an: i64, ad: i64, bn: i64, bd: i64) -> (r: bool)
    ensures
        r == ratio_lt(an as int, ad as int, bn as int, bd as int),
{
    if ad == 0 {
        false
    } else if bd == 0 {
        true
    } else if wide_mul(ad, bd) > 0 {
        wide_mul(an, bd) < wide_mul(bn, ad)
    } else {
        wide_mul(an, bd) > wide_mul(bn, ad)
    }
}

/// Clamp a double-width difference into the symmetric `i64` range.
fn clamp_diff(x: i128) -> (r: i64)
    ensures
        r as int == sat64(x as int),
{
    if x > i64::MAX as i128 {
        i64::MAX
    } else if x < -(i64::MAX as i128) {
        -i64::MAX
    } else {
        x as i64
    }
}

/// Swept test of the rectangle at upper-left corner `pos1` moving with
/// `vel1` against the rectangle at `pos2` moving with `vel2`, over one
/// tick.  `Ok(None)` means no contact; `Ok(Some(d))` reports the contact
/// direction on the resolved axis; the error reports an overlap that no
/// axis candidate can explain.
pub fn rectangles_casted_collision(
    pos1: &Vec2, size1: &Vec2, vel1: &Vec2,
    pos2: &Vec2, size2: &Vec2, vel2: &Vec2,
) -> (r: Result<Option<ContactDir>, PhysicsError>)
    ensures
        r == casted_collision_spec(*pos1, *size1, *vel1, *pos2, *size2, *vel2),
{
    let cast1 = pos1.plus(vel1.scaled(PHYSICS_TIME_STEP));
    let cast2 = pos2.plus(vel2.scaled(PHYSICS_TIME_STEP));
    if !aabb_collision(&cast1, size1, &cast2, size2) {
        return Ok(None);
    }
    let horizontal: Option<(ContactDir, i64, i64)> =
        if (pos1.x as i128) >= (pos2.x as i128) + (size2.x as i128) {
            Some((
                ContactDir::Left,
                clamp_diff((pos2.x as i128) + (size2.x as i128) - (pos1.x as i128)),
                clamp_diff((vel1.x as i128) - (vel2.x as i128)),
            ))
        } else if (pos1.x as i128) + (size1.x as i128) <= (pos2.x as i128) {
            Some((
                ContactDir::Right,
                clamp_diff((pos2.x as i128) - ((pos1.x as i128) + (size1.x as i128))),
                clamp_diff((vel1.x as i128) - (vel2.x as i128)),
            ))
        } else {
            None
        };
    let vertical: Option<(ContactDir, i64, i64)> =
        if (pos1.y as i128) <= (pos2.y as i128) - (size2.y as i128) {
            Some((
                ContactDir::Up,
                clamp_diff((pos2.y as i128) - (size2.y as i128) - (pos1.y as i128)),
                clamp_diff((vel1.y as i128) - (vel2.y as i128)),
            ))
        } else if (pos1.y as i128) - (size1.y as i128) >= (pos2.y as i128) {
            Some((
                ContactDir::Down,
                clamp_diff((pos2.y as i128) - ((pos1.y as i128) - (size1.y as i128))),
                clamp_diff((vel1.y as i128) - (vel2.y as i128)),
            ))
        } else {
            None
        };
    match (horizontal, vertical) {
        (Some((hd, hn, hdn)), Some((vd, vn, vdn))) => {
            if ratio_lt_exec(hn, hdn, vn, vdn) {
                Ok(Some(hd))
            } else {
                Ok(Some(vd))
            }
        },
        (Some((hd, _, _)), None) => Ok(Some(hd)),
        (None, Some((vd, _, _))) => Ok(Some(vd)),
        (None, None) => Err(PhysicsError::NoContactAxis),
    }
}

/// An entity the swept stage treats as a static obstacle.
pub open spec fn is_wall_entity(e: EntityData) -> bool {
    e.wall && !e.wall_collider && e.position is Some && e.shape is Some
}

/// An entity the swept stage moves and resolves against the obstacles.
pub open spec fn is_wall_collider_entity(e: EntityData) -> bool {
    e.wall_collider && !e.wall && e.position is Some && e.shape is Some && e.velocity is Some
}

/// The entity with its sensor flags cleared, where it has a sensor.
pub open spec fn clear_sensor(e: EntityData) -> EntityData {
    if e.wall_sensor is Some {
        EntityData {
            wall_sensor: Some(WallSensor { left: false, right: false, down: false }),
            ..e
        }
    } else {
        e
    }
}

/// The collider after a contact in direction `dir` against a wall centred
/// at `wp`: its position on the contact axis is snapped flush with the
/// wall surface plus a small gap, the velocity component on that axis is
/// zeroed, and the sensor flag for the contact side is set.  A contact
/// above (a ceiling) sets no sensor flag.
pub open spec fn apply_resolution(col: EntityData, wp: Vec2, cs: Vec2, ws: Vec2, dir: ContactDir)
    -> EntityData {
    let cp = (col.position->0).0;
    let cv = (col.velocity->0).0;
    let offx = mul_sat(add_sat(cs.x as int, ws.x as int), HALF as int);
    let offy = mul_sat(add_sat(cs.y as int, ws.y as int), HALF as int);
    match dir {
        ContactDir::Down => EntityData {
            position: Some(
                Position(
                    Vec2 { x: cp.x, y: add_sat(add_sat(wp.y as int, offy), MU as int) as i64 },
                ),
            ),
            velocity: Some(Velocity(Vec2 { x: cv.x, y: 0 })),
            wall_sensor: match col.wall_sensor {
                Some(s) => Some(WallSensor { down: true, ..s }),
                None => None,
            },
            ..col
        },
        ContactDir::Left => EntityData {
            position: Some(
                Position(
                    Vec2 { x: add_sat(add_sat(wp.x as int, offx), MU as int) as i64, y: cp.y },
                ),
            ),
            velocity: Some(Velocity(Vec2 { x: 0, y: cv.y })),
            wall_sensor: match col.wall_sensor {
                Some(s) => Some(WallSensor { left: true, ..s }),
                None => None,
            },
            ..col
        },
        ContactDir::Up => EntityData {
            position: Some(
                Position(
                    Vec2 { x: cp.x, y: sub_sat(sub_sat(wp.y as int, offy), MU as int) as i64 },
                ),
            ),
            velocity: Some(Velocity(Vec2 { x: cv.x, y: 0 })),
            ..col
        },
        ContactDir::Right => EntityData {
            position: Some(
                Position(
                    Vec2 { x: sub_sat(sub_sat(wp.x as int, offx), MU as int) as i64, y: cp.y },
                ),
            ),
            velocity: Some(Velocity(Vec2 { x: 0, y: cv.y })),
            wall_sensor: match col.wall_sensor {
                Some(s) => Some(WallSensor { right: true, ..s }),
                None => None,
            },
            ..col
        },
    }
}

/// What resolving the collider `col` (entity `ci`) against the single
/// wall entity `wall` (entity `wi`) yields: the collider unchanged when
/// the swept test reports no contact, the resolved collider on contact,
/// and an error when the shapes are not both rectangles or the swept test
/// itself fails.
pub open spec fn resolve_collider_wall(col: EntityData, wall: EntityData, ci: int, wi: int)
    -> Result<EntityData, PhysicsError> {
    match (col.shape, wall.shape) {
        (Some(Shape::Rect(cs)), Some(Shape::Rect(ws))) => {
            let cp = (col.position->0).0;
            let cv = (col.velocity->0).0;
            let wp = (wall.position->0).0;
            let cul = Vec2 {
                x: sub_sat(cp.x as int, mul_sat(cs.x as int, HALF as int)) as i64,
                y: add_sat(cp.y as int, mul_sat(cs.y as int, HALF as int)) as i64,
            };
            let wul = Vec2 {
                x: sub_sat(wp.x as int, mul_sat(ws.x as int, HALF as int)) as i64,
                y: add_sat(wp.y as int, mul_sat(ws.y as int, HALF as int)) as i64,
            };
            match casted_collision_spec(cul, cs, cv, wul, ws, Vec2 { x: 0, y: 0 }) {
                Ok(None) => Ok(col),
                Ok(Some(dir)) => Ok(apply_resolution(col, wp, cs, ws, dir)),
                Err(e) => Err(e),
            }
        },
        _ => Err(PhysicsError::UnhandledWallShape { collider: ci as usize, wall: wi as usize }),
    }
}

/// The collider `col` (entity `ci`) resolved, in order, against every
/// wall entity among the first `wi` entities of the store `s`.
pub open spec fn resolve_walls(s: Seq<EntityData>, col: EntityData, ci: int, wi: int)
    -> Result<EntityData, PhysicsError>
    decreases wi,
{
    if wi <= 0 {
        Ok(col)
    } else {
        match resolve_walls(s, col, ci, wi - 1) {
            Ok(c) => if 0 <= wi - 1 < s.len() && is_wall_entity(s[wi - 1]) {
                resolve_collider_wall(c, s[wi - 1], ci, wi - 1)
            } else {
                Ok(c)
            },
            Err(e) => Err(e),
        }
    }
}

/// What the swept stage leaves of entity `i` when every collider's
/// resolution succeeds: a wall collider becomes its fold result, any
/// other entity is untouched.
pub open spec fn swept_entity(s: Seq<EntityData>, i: int) -> EntityData {
    if is_wall_collider_entity(s[i]) {
        match resolve_walls(s, clear_sensor(s[i]), i, s.len() as int) {
            Ok(c) => c,
            Err(_) => s[i],
        }
    } else {
        s[i]
    }
}

/// Whether the swept stage completes over the store `s`: every wall
/// collider's resolution against all walls succeeds.
pub open spec fn swept_succeeds(s: Seq<EntityData>) -> bool {
    forall|i: int|
        0 <= i < s.len() && is_wall_collider_entity(#[trigger] s[i])
            ==> resolve_walls(s, clear_sensor(s[i]), i, s.len() as int) is Ok
}

/// Whether the swept stage over the store `s` stops with the error `e`:
/// some wall collider's resolution fails with `e` while every earlier
/// collider's resolution succeeds.
pub open spec fn swept_fails(s: Seq<EntityData>, e: PhysicsError) -> bool {
    exists|k: int|
        {
            &&& 0 <= k < s.len()
            &&& is_wall_collider_entity(#[trigger] s[k])
            &&& resolve_walls(s, clear_sensor(s[k]), k, s.len() as int)
                == Result::<EntityData, PhysicsError>::Err(e)
            &&& forall|j: int|
                0 <= j < k && is_wall_collider_entity(#[trigger] s[j])
                    ==> resolve_walls(s, clear_sensor(s[j]), j, s.len() as int) is Ok
        }
}

/// Once the fold over the walls has failed, taking further walls leaves
/// the same error.
proof fn lemma_resolve_walls_err_persists(
    s: Seq<EntityData>, col: EntityData, ci: int, wi: int, n: int,
)
    requires
        0 <= wi <= n,
        resolve_walls(s, col, ci, wi) is Err,
    ensures
        resolve_walls(s, col, ci, n) == resolve_walls(s, col, ci, wi),
    decreases n - wi,
{
    if n > wi {
        lemma_resolve_walls_err_persists(s, col, ci, wi, n - 1);
    }
}

/// Wall resolution only moves the collider, zeroes its velocity on the
/// contact axes and raises sensor flags: the wall markers, the
/// acceleration accumulator, the rotation, the hierarchy data and the
/// presence of a position and a velocity are left as they were.
pub proof fn lemma_resolve_walls_frame(s: Seq<EntityData>, col: EntityData, ci: int, wi: int)
    ensures
        resolve_walls(s, col, ci, wi) matches Ok(c) ==> {
            &&& c.wall == col.wall
            &&& c.wall_collider == col.wall_collider
            &&& c.acceleration == col.acceleration
            &&& (col.velocity is Some ==> c.velocity is Some)
            &&& (col.position is Some ==> c.position is Some)
            &&& c.rotation == col.rotation
            &&& c.game_world == col.game_world
            &&& c.children == col.children
            &&& c.transform == col.transform
            &&& c.global_position == col.global_position
            &&& c.global_rotation == col.global_rotation
        },
    decreases wi,
{
    if wi > 0 {
        lemma_resolve_walls_frame(s, col, ci, wi - 1);
    }
}

/// The swept wall-collision stage.  For every wall-collider entity, in
/// index order: its sensor flags are cleared, then the collider is
/// resolved against every wall entity in index order, snapping its
/// position, zeroing its velocity on the contact axis and raising the
/// sensor flag of the contact side.  The store is updated collider by
/// collider; on the first failing collider the error is returned and that
/// collider and all later entities are left as they were.
#[verifier::rlimit(100)]
pub fn handle_wall_collisions(w: &mut World) -> (r: Result<(), PhysicsError>)
    ensures
        final(w)@.len() == old(w)@.len(),
        forall|j: int|
            0 <= j < old(w)@.len() && !is_wall_collider_entity(old(w)@[j])
                ==> final(w)@[j] == old(w)@[j],
        match r {
            Ok(()) => forall|j: int|
                0 <= j < old(w)@.len() && is_wall_collider_entity(old(w)@[j])
                    ==> (resolve_walls(
                        old(w)@,
                        clear_sensor(old(w)@[j]),
                        j,
                        old(w)@.len() as int,
                    ) matches Ok(c) && final(w)@[j] == c),
            Err(e) => exists|k: int|
                {
                    &&& 0 <= k < old(w)@.len()
                    &&& is_wall_collider_entity(old(w)@[k])
                    &&& resolve_walls(old(w)@, clear_sensor(old(w)@[k]), k, old(w)@.len() as int)
                        == Result::<EntityData, PhysicsError>::Err(e)
                    &&& forall|j: int|
                        0 <= j < k && is_wall_collider_entity(old(w)@[j])
                            ==> (resolve_walls(
                                old(w)@,
                                clear_sensor(old(w)@[j]),
                                j,
                                old(w)@.len() as int,
                            ) matches Ok(c) && final(w)@[j] == c)
                    &&& forall|j: int| k <= j < old(w)@.len() ==> final(w)@[j] == old(w)@[j]
                },
        },
{
    let n = w.entities.len();
    let mut ci: usize = 0;
    while ci < n
        invariant
            ci <= n,
            n == w@.len(),
            n == old(w)@.len(),
            forall|j: int|
                0 <= j < n && !is_wall_collider_entity(old(w)@[j]) ==> w@[j] == old(w)@[j],
            forall|j: int|
                0 <= j < ci && is_wall_collider_entity(old(w)@[j])
                    ==> (resolve_walls(old(w)@, clear_sensor(old(w)@[j]), j, n as int)
                        matches Ok(c) && w@[j] == c),
            forall|j: int| ci <= j < n ==> w@[j] == old(w)@[j],
        decreases n - ci,
    {
        let is_col = w.entities[ci].wall_collider && !w.entities[ci].wall
            && w.entities[ci].position.is_some() && w.entities[ci].shape.is_some()
            && w.entities[ci].velocity.is_some();
        if is_col {
            let mut cpos: Vec2 = w.entities[ci].position.unwrap().0;
            let mut cvel: Vec2 = w.entities[ci].velocity.unwrap().0;
            let mut csensor: Option<WallSensor> = w.entities[ci].wall_sensor;
            if csensor.is_some() {
                csensor = Some(WallSensor { left: false, right: false, down: false });
            }
            let ghost w_snap: Seq<EntityData> = w@;
            let mut wi: usize = 0;
            while wi < n
                invariant
                    wi <= n,
                    ci < n,
                    n == w@.len(),
                    n == old(w)@.len(),
                    w@ == w_snap,
                    is_wall_collider_entity(old(w)@[ci as int]),
                    forall|j: int|
                        0 <= j < n && !is_wall_collider_entity(old(w)@[j])
                            ==> w_snap[j] == old(w)@[j],
                    forall|j: int|
                        0 <= j < ci && is_wall_collider_entity(old(w)@[j])
                            ==> (resolve_walls(old(w)@, clear_sensor(old(w)@[j]), j, n as int)
                                matches Ok(c) && w_snap[j] == c),
                    forall|j: int| ci <= j < n ==> w_snap[j] == old(w)@[j],
                    resolve_walls(old(w)@, clear_sensor(old(w)@[ci as int]), ci as int, wi as int)
                        matches Ok(c) && c == (EntityData {
                        position: Some(Position(cpos)),
                        velocity: Some(Velocity(cvel)),
                        wall_sensor: csensor,
                        ..old(w)@[ci as int]
                    }),
                decreases n - wi,
            {
                proof {
                    lemma_resolve_walls_frame(
                        old(w)@,
                        clear_sensor(old(w)@[wi as int]),
                        wi as int,
                        n as int,
                    );
                }
                let is_wall = w.entities[wi].wall && !w.entities[wi].wall_collider
                    && w.entities[wi].position.is_some() && w.entities[wi].shape.is_some();
                if is_wall {
                    let wpos: Vec2 = w.entities[wi].position.unwrap().0;
                    let shapes_ok: Option<(Vec2, Vec2)> =
                        match (&w.entities[ci].shape, &w.entities[wi].shape) {
                            (Some(Shape::Rect(cs)), Some(Shape::Rect(ws))) => Some((*cs, *ws)),
                            _ => None,
                        };
                    match shapes_ok {
                        None => {
                            proof {
                                lemma_resolve_walls_err_persists(
                                    old(w)@,
                                    clear_sensor(old(w)@[ci as int]),
                                    ci as int,
                                    wi as int + 1,
                                    n as int,
                                );
                            }
                            return Err(
                                PhysicsError::UnhandledWallShape { collider: ci, wall: wi },
                            );
                        },
                        Some((cs, ws)) => {
                            let cul = Vec2 {
                                x: fx_sub(cpos.x, fx_mul(cs.x, HALF)),
                                y: fx_add(cpos.y, fx_mul(cs.y, HALF)),
                            };
                            let wul = Vec2 {
                                x: fx_sub(wpos.x, fx_mul(ws.x, HALF)),
                                y: fx_add(wpos.y, fx_mul(ws.y, HALF)),
                            };
                            let outcome = rectangles_casted_collision(
                                &cul,
                                &cs,
                                &cvel,
                                &wul,
                                &ws,
                                &Vec2 { x: 0, y: 0 },
                            );
                            match outcome {
                                Err(e) => {
                                    proof {
                                        lemma_resolve_walls_err_persists(
                                            old(w)@,
                                            clear_sensor(old(w)@[ci as int]),
                                            ci as int,
                                            wi as int + 1,
                                            n as int,
                                        );
                                    }
                                    return Err(e);
                                },
                                Ok(None) => {},
                                Ok(Some(dir)) => {
                                    let offx = fx_mul(fx_add(cs.x, ws.x), HALF);
                                    let offy = fx_mul(fx_add(cs.y, ws.y), HALF);
                                    match dir {
                                        ContactDir::Down => {
                                            cpos.y = fx_add(fx_add(wpos.y, offy), MU);
                                            cvel.y = 0;
                                            if let Some(s) = csensor {
                                                csensor = Some(WallSensor { down: true, ..s });
                                            }
                                        },
                                        ContactDir::Left => {
                                            cpos.x = fx_add(fx_add(wpos.x, offx), MU);
                                            cvel.x = 0;
                                            if let Some(s) = csensor {
                                                csensor = Some(WallSensor { left: true, ..s });
                                            }
                                        },
                                        ContactDir::Up => {
                                            cpos.y = fx_sub(fx_sub(wpos.y, offy), MU);
                                            cvel.y = 0;
                                        },
                                        ContactDir::Right => {
                                            cpos.x = fx_sub(fx_sub(wpos.x, offx), MU);
                                            cvel.x = 0;
                                            if let Some(s) = csensor {
                                                csensor = Some(WallSensor { right: true, ..s });
                                            }
                                        },
                                    }
                                },
                            }
                        },
                    }
                }
                wi = wi + 1;
            }
            w.entities[ci].position = Some(Position(cpos));
            w.entities[ci].velocity = Some(Velocity(cvel));
            w.entities[ci].wall_sensor = csensor;
        }
        ci = ci + 1;
    }
    Ok(())
}

} // verus!
