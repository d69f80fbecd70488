//! Countdown timers and their per-tick advancement over the store.

use glimpse_physics::fx::PHYSICS_TIME_STEP;
use glimpse_physics::timers::{
    tick_attack_times, tick_jump_times, AttackStates, Attacker, JumpStates, Jumper, Timer,
};
use glimpse_physics::world::{EntityData, World};

#[test]
fn timers_accumulate_and_finish() {
    let mut t = Timer::from_seconds(3 * PHYSICS_TIME_STEP);
    assert!(!t.finished());
    t.tick(PHYSICS_TIME_STEP);
    t.tick(PHYSICS_TIME_STEP);
    assert!(!t.finished());
    t.tick(PHYSICS_TIME_STEP);
    assert!(t.finished());
    // Elapsed time never runs past the duration.
    t.tick(PHYSICS_TIME_STEP);
    assert_eq!(t.elapsed, t.duration);
}

#[test]
fn jump_timers_advance_once_per_tick() {
    let mut w = World::new();
    let mut e = EntityData::empty();
    e.jumper = Some(Jumper {
        state: JumpStates::Jumping(Timer::from_seconds(2 * PHYSICS_TIME_STEP)),
    });
    let id = w.spawn(e);
    let mut grounded = EntityData::empty();
    grounded.jumper = Some(Jumper { state: JumpStates::Jumpable });
    let still = w.spawn(grounded);
    tick_jump_times(&mut w);
    match w.entity(id).jumper.unwrap().state {
        JumpStates::Jumping(t) => assert_eq!(t.elapsed, PHYSICS_TIME_STEP),
        _ => panic!("jump state changed"),
    }
    // States without a running timer are untouched.
    assert_eq!(w.entity(still).jumper.unwrap().state, JumpStates::Jumpable);
}

#[test]
fn attack_timers_advance_once_per_tick() {
    let mut w = World::new();
    let mut e = EntityData::empty();
    e.attacker = Some(Attacker {
        state: AttackStates::Attacking(Timer::from_seconds(2 * PHYSICS_TIME_STEP), 7),
    });
    let id = w.spawn(e);
    tick_attack_times(&mut w);
    tick_attack_times(&mut w);
    match w.entity(id).attacker.unwrap().state {
        AttackStates::Attacking(t, entity) => {
            assert_eq!(t.elapsed, 2 * PHYSICS_TIME_STEP);
            assert!(t.elapsed >= t.duration);
            assert_eq!(entity, 7);
        },
        _ => panic!("attack state changed"),
    }
}
