//! Player intent: turning input edges into physics adjustments and
//! state-machine transitions.
//!
//! Reading the keyboard belongs to the caller; this module takes the
//! input edges of one tick as plain booleans and decides what they do to
//! the player's adjustment, velocity override, jump state and attack
//! state.  Spawning and despawning the weapon is also the caller's job:
//! the decision here only requests it through the returned action.

use vstd::prelude::*;
use crate::components::{AdjustAcceleration, OverrideVelocity, WallSensor};
use crate::fx::{add_sat, fx_add, fx_sub, sub_sat};
use crate::timers::{AttackStates, Attacker, JumpStates, Jumper, Timer};

verus! {

/// Horizontal run acceleration of the player (30.0).
pub const PLAYER_RUN_ACCEL_X: i64 = 300_000_000;

/// Upward velocity forced while a jump is held (8.0).
pub const PLAYER_JUMP_VEL_Y: i64 = 80_000_000;

/// How long a jump may be held, in fixed-point seconds (0.3).
pub const PLAYER_JUMP_TIME: i64 = 3_000_000;

/// Duration of a hammer swing and of its cooldown, in fixed-point
/// seconds (0.5).
pub const HAMMER_SWING_TIME: i64 = 5_000_000;

/// The input edges of one tick, as seen by the player controller.
#[derive(Clone, Copy, PartialEq, Eq, Structural, Debug)]
pub struct PlayerInput {
    pub left_pressed: bool,
    pub left_released: bool,
    pub right_pressed: bool,
    pub right_released: bool,
    pub up_pressed: bool,
    pub up_released: bool,
    pub attack_held: bool,
}

/// What the caller must do after a control decision.
#[derive(Clone, Copy, PartialEq, Eq, Structural, Debug)]
pub enum PlayerAction {
    /// Nothing to do.
    Idle,
    /// Spawn the hammer entities and report the shaft entity back
    /// through `record_attack_started`.
    SpawnHammer,
    /// Despawn the given weapon entity and its children.
    DespawnHammer(usize),
}

/// The run adjustment after the tick's left/right input edges: pressing
/// adds the run acceleration toward that side, releasing takes it back.
pub open spec fn adjust_after_input(adj: Vec2Spec, input: PlayerInput) -> int {
    let a1 = if input.left_pressed {
        sub_sat(adj.x, PLAYER_RUN_ACCEL_X as int)
    } else if input.left_released {
        add_sat(adj.x, PLAYER_RUN_ACCEL_X as int)
    } else {
        adj.x
    };
    if input.right_pressed {
        add_sat(a1, PLAYER_RUN_ACCEL_X as int)
    } else if input.right_released {
        sub_sat(a1, PLAYER_RUN_ACCEL_X as int)
    } else {
        a1
    }
}

/// A pair of mathematical coordinates, used to state the controller's
/// arithmetic.
pub struct Vec2Spec {
    pub x: int,
    pub y: int,
}

/// The jump transition: a grounded, jump-ready player starting a jump
/// forces the jump velocity upward and starts the jump timer; leaving
/// the ground without jumping loses jump readiness; releasing the jump
/// key or exhausting the timer ends the jump and clears the override;
/// touching the ground again restores readiness.
pub open spec fn jump_transition(
    state: JumpStates, over_y: Option<i64>, sensor_down: bool, input: PlayerInput,
) -> (JumpStates, Option<i64>) {
    match state {
        JumpStates::Jumpable => {
            if input.up_pressed {
                (
                    JumpStates::Jumping(Timer { elapsed: 0, duration: PLAYER_JUMP_TIME }),
                    Some(PLAYER_JUMP_VEL_Y),
                )
            } else if !sensor_down {
                (JumpStates::Unjumpable, over_y)
            } else {
                (state, over_y)
            }
        },
        JumpStates::Jumping(timer) => {
            if input.up_released || timer.elapsed >= timer.duration {
                (JumpStates::Unjumpable, Option::<i64>::None)
            } else {
                (state, over_y)
            }
        },
        JumpStates::Unjumpable => {
            if sensor_down {
                (JumpStates::Jumpable, over_y)
            } else {
                (state, over_y)
            }
        },
    }
}

/// The attack transition: holding the attack key while ready requests a
/// hammer spawn; a finished swing requests the despawn of its weapon and
/// starts the cooldown; a finished cooldown restores readiness.
pub open spec fn attack_transition(state: AttackStates, input: PlayerInput)
    -> (AttackStates, PlayerAction) {
    match state {
        AttackStates::CanAttack => {
            if input.attack_held {
                (state, PlayerAction::SpawnHammer)
            } else {
                (state, PlayerAction::Idle)
            }
        },
        AttackStates::Attacking(timer, entity) => {
            if timer.elapsed >= timer.duration {
                (
                    AttackStates::NoAttack(Timer { elapsed: 0, duration: HAMMER_SWING_TIME }),
                    PlayerAction::DespawnHammer(entity),
                )
            } else {
                (state, PlayerAction::Idle)
            }
        },
        AttackStates::NoAttack(timer) => {
            if timer.elapsed >= timer.duration {
                (AttackStates::CanAttack, PlayerAction::Idle)
            } else {
                (state, PlayerAction::Idle)
            }
        },
    }
}

/// Apply one tick of player input to the player's components and decide
/// what the caller must spawn or despawn.
pub fn move_player(
    input: PlayerInput,
    wall_sensor: &WallSensor,
    jumper: &mut Jumper,
    adjust_accel: &mut AdjustAcceleration,
    over_vel: &mut OverrideVelocity,
    attacker: &mut Attacker,
) -> (action: PlayerAction)
    ensures
        final(adjust_accel).0.x as int == adjust_after_input(
            Vec2Spec { x: old(adjust_accel).0.x as int, y: old(adjust_accel).0.y as int },
            input,
        ),
        final(adjust_accel).0.y == old(adjust_accel).0.y,
        ({
            let (js, oy) = jump_transition(
                old(jumper).state,
                old(over_vel).1,
                wall_sensor.down,
                input,
            );
            final(jumper).state == js && final(over_vel).1 == oy
        }),
        final(over_vel).0 == old(over_vel).0,
        ({
            let (ast, act) = attack_transition(old(attacker).state, input);
            final(attacker).state == ast && action == act
        }),
{
    if input.left_pressed {
        adjust_accel.0.x = fx_sub(adjust_accel.0.x, PLAYER_RUN_ACCEL_X);
    } else if input.left_released {
        adjust_accel.0.x = fx_add(adjust_accel.0.x, PLAYER_RUN_ACCEL_X);
    }
    if input.right_pressed {
        adjust_accel.0.x = fx_add(adjust_accel.0.x, PLAYER_RUN_ACCEL_X);
    } else if input.right_released {
        adjust_accel.0.x = fx_sub(adjust_accel.0.x, PLAYER_RUN_ACCEL_X);
    }

    match jumper.state {
        JumpStates::Jumpable => {
            if input.up_pressed {
                over_vel.1 = Some(PLAYER_JUMP_VEL_Y);
                jumper.state = JumpStates::Jumping(Timer::from_seconds(PLAYER_JUMP_TIME));
            } else if !wall_sensor.down {
                jumper.state = JumpStates::Unjumpable;
            }
        },
        JumpStates::Jumping(timer) => {
            if input.up_released || timer.finished() {
                over_vel.1 = None;
                jumper.state = JumpStates::Unjumpable;
            }
        },
        JumpStates::Unjumpable => {
            if wall_sensor.down {
                jumper.state = JumpStates::Jumpable;
            }
        },
    }

    match attacker.state {
        AttackStates::CanAttack => {
            if input.attack_held {
                return PlayerAction::SpawnHammer;
            }
        },
        AttackStates::Attacking(timer, entity) => {
            if timer.finished() {
                attacker.state = AttackStates::NoAttack(Timer::from_seconds(HAMMER_SWING_TIME));
                return PlayerAction::DespawnHammer(entity);
            }
        },
        AttackStates::NoAttack(timer) => {
            if timer.finished() {
                attacker.state = AttackStates::CanAttack;
            }
        },
    }
    PlayerAction::Idle
}

/// Record that the hammer requested by `SpawnHammer` was spawned, with
/// the shaft entity carrying the swing: the attacker enters the swing
/// state with a fresh timer.
pub fn record_attack_started(attacker: &mut Attacker, shaft: usize)
    ensures
        final(attacker).state == AttackStates::Attacking(
            Timer { elapsed: 0, duration: HAMMER_SWING_TIME },
            shaft,
        ),
{
    attacker.state = AttackStates::Attacking(Timer::from_seconds(HAMMER_SWING_TIME), shaft);
}

} // verus!
