//! The player controller: run input, the jump state machine and the
//! attack state machine.

use glimpse_physics::components::{AdjustAcceleration, OverrideVelocity, WallSensor};
use glimpse_physics::control::{
    move_player, record_attack_started, PlayerAction, PlayerInput, HAMMER_SWING_TIME,
    PLAYER_JUMP_TIME, PLAYER_JUMP_VEL_Y, PLAYER_RUN_ACCEL_X,
};
use glimpse_physics::timers::{AttackStates, Attacker, JumpStates, Jumper, Timer};
use glimpse_physics::vec2::Vec2;

fn no_input() -> PlayerInput {
    PlayerInput {
        left_pressed: false,
        left_released: false,
        right_pressed: false,
        right_released: false,
        up_pressed: false,
        up_released: false,
        attack_held: false,
    }
}

fn grounded() -> WallSensor {
    WallSensor { left: false, right: false, down: true }
}

fn fresh_player() -> (Jumper, AdjustAcceleration, OverrideVelocity, Attacker) {
    (
        Jumper { state: JumpStates::Unjumpable },
        AdjustAcceleration(Vec2 { x: 0, y: 0 }),
        OverrideVelocity(None, None),
        Attacker { state: AttackStates::CanAttack },
    )
}

#[test]
fn run_input_adjusts_acceleration() {
    let (mut jumper, mut adj, mut over, mut attacker) = fresh_player();
    let mut input = no_input();
    input.right_pressed = true;
    move_player(input, &grounded(), &mut jumper, &mut adj, &mut over, &mut attacker);
    assert_eq!(adj.0.x, PLAYER_RUN_ACCEL_X);
    let mut input = no_input();
    input.right_released = true;
    input.left_pressed = true;
    move_player(input, &grounded(), &mut jumper, &mut adj, &mut over, &mut attacker);
    assert_eq!(adj.0.x, -PLAYER_RUN_ACCEL_X);
}

#[test]
fn landing_restores_jump_readiness() {
    let (mut jumper, mut adj, mut over, mut attacker) = fresh_player();
    move_player(no_input(), &grounded(), &mut jumper, &mut adj, &mut over, &mut attacker);
    assert_eq!(jumper.state, JumpStates::Jumpable);
}

#[test]
fn jumping_forces_the_vertical_velocity() {
    let (mut jumper, mut adj, mut over, mut attacker) = fresh_player();
    jumper.state = JumpStates::Jumpable;
    let mut input = no_input();
    input.up_pressed = true;
    move_player(input, &grounded(), &mut jumper, &mut adj, &mut over, &mut attacker);
    assert_eq!(over.1, Some(PLAYER_JUMP_VEL_Y));
    assert_eq!(
        jumper.state,
        JumpStates::Jumping(Timer { elapsed: 0, duration: PLAYER_JUMP_TIME })
    );
}

#[test]
fn releasing_the_jump_clears_the_override() {
    let (mut jumper, mut adj, mut over, mut attacker) = fresh_player();
    jumper.state = JumpStates::Jumping(Timer { elapsed: 0, duration: PLAYER_JUMP_TIME });
    over.1 = Some(PLAYER_JUMP_VEL_Y);
    let mut input = no_input();
    input.up_released = true;
    move_player(
        input,
        &WallSensor { left: false, right: false, down: false },
        &mut jumper,
        &mut adj,
        &mut over,
        &mut attacker,
    );
    assert_eq!(over.1, None);
    assert_eq!(jumper.state, JumpStates::Unjumpable);
}

#[test]
fn an_exhausted_jump_timer_ends_the_jump() {
    let (mut jumper, mut adj, mut over, mut attacker) = fresh_player();
    jumper.state = JumpStates::Jumping(
        Timer { elapsed: PLAYER_JUMP_TIME, duration: PLAYER_JUMP_TIME },
    );
    over.1 = Some(PLAYER_JUMP_VEL_Y);
    move_player(
        no_input(),
        &WallSensor { left: false, right: false, down: false },
        &mut jumper,
        &mut adj,
        &mut over,
        &mut attacker,
    );
    assert_eq!(over.1, None);
    assert_eq!(jumper.state, JumpStates::Unjumpable);
}

#[test]
fn attacking_requests_a_hammer_and_swings_once() {
    let (mut jumper, mut adj, mut over, mut attacker) = fresh_player();
    let mut input = no_input();
    input.attack_held = true;
    let action = move_player(input, &grounded(), &mut jumper, &mut adj, &mut over, &mut attacker);
    assert_eq!(action, PlayerAction::SpawnHammer);
    // The caller spawns the weapon and reports the shaft entity back.
    record_attack_started(&mut attacker, 42);
    assert_eq!(
        attacker.state,
        AttackStates::Attacking(Timer { elapsed: 0, duration: HAMMER_SWING_TIME }, 42)
    );
    // While the swing runs, holding the key does nothing more.
    let action = move_player(input, &grounded(), &mut jumper, &mut adj, &mut over, &mut attacker);
    assert_eq!(action, PlayerAction::Idle);
    // Once the swing timer is up, the weapon is despawned and the
    // cooldown starts.
    attacker.state = AttackStates::Attacking(
        Timer { elapsed: HAMMER_SWING_TIME, duration: HAMMER_SWING_TIME },
        42,
    );
    let action = move_player(input, &grounded(), &mut jumper, &mut adj, &mut over, &mut attacker);
    assert_eq!(action, PlayerAction::DespawnHammer(42));
    assert_eq!(
        attacker.state,
        AttackStates::NoAttack(Timer { elapsed: 0, duration: HAMMER_SWING_TIME })
    );
    // And once the cooldown is up, the player may attack again.
    attacker.state = AttackStates::NoAttack(
        Timer { elapsed: HAMMER_SWING_TIME, duration: HAMMER_SWING_TIME },
    );
    let action = move_player(no_input(), &grounded(), &mut jumper, &mut adj, &mut over, &mut attacker);
    assert_eq!(action, PlayerAction::Idle);
    assert_eq!(attacker.state, AttackStates::CanAttack);
}
