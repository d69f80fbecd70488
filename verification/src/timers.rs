//! Per-tick countdown timers for transient gameplay states.
//!
//! A timer accumulates elapsed fixed-point seconds up to its duration;
//! it is finished once the accumulated time reaches the duration.  The
//! jump and attack states attach timers to entities and are advanced by
//! one tick duration per fixed tick, independent of the physics stages
//! but within the same tick boundary.

use vstd::prelude::*;
use crate::fx::{add_sat, fx_add, PHYSICS_TIME_STEP};
use crate::world::{EntityData, World};

verus! {

/// A one-shot countdown timer over fixed-point seconds.
#[derive(Clone, Copy, PartialEq, Eq, Structural, Debug)]
pub struct Timer {
    /// Time accumulated so far, saturating at the duration.
    pub elapsed: i64,
    /// The time span after which the timer is finished.
    pub duration: i64,
}

/// The timer advanced by `dt`: elapsed time grows by `dt` but never
/// beyond the duration.
pub open spec fn timer_after_tick(t: Timer, dt: int) -> Timer {
    let e = add_sat(t.elapsed as int, dt);
    Timer { elapsed: if e > t.duration { t.duration } else { e as i64 }, duration: t.duration }
}

impl Timer {
    /// A fresh timer that will finish after `duration` fixed-point
    /// seconds.
    pub fn from_seconds(duration: i64) -> (r: Timer)
        ensures
            r.elapsed == 0,
            r.duration == duration,
    {
        Timer { elapsed: 0, duration }
    }

    /// Advance the timer by `dt` fixed-point seconds.
    pub fn tick(&mut self, dt: i64)
        ensures
            *final(self) == timer_after_tick(*old(self), dt as int),
    {
        let e = fx_add(self.elapsed, dt);
        self.elapsed = if e > self.duration {
            self.duration
        } else {
            e
        };
    }

    /// Whether the timer has accumulated its whole duration.
    pub fn finished(&self) -> (r: bool)
        ensures
            r == (self.elapsed >= self.duration),
    {
        self.elapsed >= self.duration
    }
}

/// What a jumping entity is currently doing.
#[derive(Clone, Copy, PartialEq, Eq, Structural, Debug)]
pub enum JumpStates {
    /// Mid-jump, with the time left to hold the jump velocity.
    Jumping(Timer),
    /// On the ground and allowed to start a jump.
    Jumpable,
    /// In the air without a jump in progress.
    Unjumpable,
}

/// The jump state attached to an entity.
#[derive(Clone, Copy, PartialEq, Eq, Structural, Debug)]
pub struct Jumper {
    pub state: JumpStates,
}

/// What an attacking entity is currently doing.
#[derive(Clone, Copy, PartialEq, Eq, Structural, Debug)]
pub enum AttackStates {
    /// A swing in progress: its timer and the weapon entity spawned for
    /// it.
    Attacking(Timer, usize),
    /// Ready to attack.
    CanAttack,
    /// Cooling down after a swing.
    NoAttack(Timer),
}

/// The attack state attached to an entity.
#[derive(Clone, Copy, PartialEq, Eq, Structural, Debug)]
pub struct Attacker {
    pub state: AttackStates,
}

/// The jumper with its jump timer, if any, advanced by one tick.
pub open spec fn jumper_after_tick(j: Jumper) -> Jumper {
    match j.state {
        JumpStates::Jumping(t) => Jumper {
            state: JumpStates::Jumping(timer_after_tick(t, PHYSICS_TIME_STEP as int)),
        },
        _ => j,
    }
}

/// The attacker with its active timer, if any, advanced by one tick.
pub open spec fn attacker_after_tick(a: Attacker) -> Attacker {
    match a.state {
        AttackStates::Attacking(t, e) => Attacker {
            state: AttackStates::Attacking(timer_after_tick(t, PHYSICS_TIME_STEP as int), e),
        },
        AttackStates::NoAttack(t) => Attacker {
            state: AttackStates::NoAttack(timer_after_tick(t, PHYSICS_TIME_STEP as int)),
        },
        AttackStates::CanAttack => a,
    }
}

/// What the jump-timer stage does to one entity.
pub open spec fn jump_tick_step(e: EntityData) -> EntityData {
    if e.jumper is Some {
        EntityData { jumper: Some(jumper_after_tick(e.jumper->0)), ..e }
    } else {
        e
    }
}

/// What the attack-timer stage does to one entity.
pub open spec fn attack_tick_step(e: EntityData) -> EntityData {
    if e.attacker is Some {
        EntityData { attacker: Some(attacker_after_tick(e.attacker->0)), ..e }
    } else {
        e
    }
}

/// Advance every jumper's jump timer by one fixed tick.
pub fn tick_jump_times(w: &mut World)
    ensures
        final(w)@.len() == old(w)@.len(),
        forall|i: int| 0 <= i < old(w)@.len() ==> final(w)@[i] == jump_tick_step(old(w)@[i]),
{
    let n = w.entities.len();
    let mut i: usize = 0;
    while i < n
        invariant
            i <= n,
            n == w@.len(),
            w@.len() == old(w)@.len(),
            forall|j: int| 0 <= j < i ==> w@[j] == jump_tick_step(old(w)@[j]),
            forall|j: int| i <= j < n ==> w@[j] == old(w)@[j],
        decreases n - i,
    {
        let jumper = w.entities[i].jumper;
        if let Some(mut j) = jumper {
            if let JumpStates::Jumping(mut t) = j.state {
                t.tick(PHYSICS_TIME_STEP);
                j.state = JumpStates::Jumping(t);
            }
            w.entities[i].jumper = Some(j);
        }
        i = i + 1;
    }
}

/// Advance every attacker's active timer by one fixed tick.
pub fn tick_attack_times(w: &mut World)
    ensures
        final(w)@.len() == old(w)@.len(),
        forall|i: int| 0 <= i < old(w)@.len() ==> final(w)@[i] == attack_tick_step(old(w)@[i]),
{
    let n = w.entities.len();
    let mut i: usize = 0;
    while i < n
        invariant
            i <= n,
            n == w@.len(),
            w@.len() == old(w)@.len(),
            forall|j: int| 0 <= j < i ==> w@[j] == attack_tick_step(old(w)@[j]),
            forall|j: int| i <= j < n ==> w@[j] == old(w)@[j],
        decreases n - i,
    {
        let attacker = w.entities[i].attacker;
        if let Some(mut a) = attacker {
            match a.state {
                AttackStates::Attacking(mut t, e) => {
                    t.tick(PHYSICS_TIME_STEP);
                    a.state = AttackStates::Attacking(t, e);
                },
                AttackStates::NoAttack(mut t) => {
                    t.tick(PHYSICS_TIME_STEP);
                    a.state = AttackStates::NoAttack(t);
                },
                AttackStates::CanAttack => {},
            }
            w.entities[i].attacker = Some(a);
        }
        i = i + 1;
    }
}

} // verus!
