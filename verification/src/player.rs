//! The movement/input translator.
//!
//! Each tick it reads the held/just-pressed key state plus the physics
//! layer's ground-contact, climb and vertical-velocity readings, emits at
//! most one `MovementStarted` event plus optionally one `AttackStarted`,
//! and decides the velocity writes the physics layer should apply. The
//! sprite's horizontal flip is derived purely from the last
//! `Run(direction)` event on the bus, decoupled from the state machine.

use vstd::prelude::*;

use crate::state_machine::{AttackType, Direction, MovementType, PlayerEvent};

verus! {

/// Horizontal run speed the translator commands, in world units per
/// second.
pub const RUN_SPEED: i32 = 200;

/// Upward velocity a jump commands, in world units per second.
pub const JUMP_SPEED: i32 = 500;

/// The key state the input source exposes for one tick.
#[derive(Clone, Copy, Debug, PartialEq, Eq, Structural)]
pub struct InputState {
    pub left_held: bool,
    pub right_held: bool,
    pub jump_just_pressed: bool,
    pub attack_just_pressed: bool,
}

/// The physics layer's per-player readings at the start of the tick.
#[derive(Clone, Copy, Debug, PartialEq, Eq, Structural)]
pub struct MotionStatus {
    pub on_ground: bool,
    pub climbing: bool,
    /// Whether the current vertical velocity is negative (moving down).
    pub falling: bool,
}

/// The velocity writes the physics layer is asked to apply this tick;
/// `None` leaves the component untouched.
#[derive(Clone, Copy, Debug, PartialEq, Eq, Structural)]
pub struct VelocityCommand {
    pub horizontal: Option<i32>,
    pub vertical: Option<i32>,
}

/// The net horizontal direction of the held keys; both or neither held
/// cancel out.
pub open spec fn spec_horizontal_direction(input: InputState) -> Option<Direction> {
    if input.left_held && !input.right_held {
        Some(Direction::Left)
    } else if input.right_held && !input.left_held {
        Some(Direction::Right)
    } else {
        None
    }
}

/// Whether a jump fires this tick: the jump key was just pressed while
/// grounded and not climbing.
pub open spec fn spec_jump_fires(input: InputState, motion: MotionStatus) -> bool {
    input.jump_just_pressed && motion.on_ground && !motion.climbing
}

/// The single movement intent of the tick, if any. When several readings
/// hold at once the one that would have been written last wins: a
/// downward airborne tick reports `Fall`, a fresh jump reports `Jump`,
/// held direction keys report `Run`, and a grounded tick without
/// horizontal input reports `Idle`. Airborne with no downward motion and
/// no direction held, nothing is reported.
pub open spec fn spec_movement_intent(input: InputState, motion: MotionStatus) -> Option<
    MovementType,
> {
    if !motion.on_ground && motion.falling {
        Some(MovementType::Fall)
    } else if spec_jump_fires(input, motion) {
        Some(MovementType::Jump)
    } else {
        match spec_horizontal_direction(input) {
            Some(d) => Some(MovementType::Run(d)),
            None => if motion.on_ground {
                Some(MovementType::Idle)
            } else {
                None
            },
        }
    }
}

/// The events one tick of input translation appends to the bus, in
/// order: the movement intent, then the attack.
pub open spec fn spec_emitted_events(input: InputState, motion: MotionStatus) -> Seq<PlayerEvent> {
    let movement: Seq<PlayerEvent> = match spec_movement_intent(input, motion) {
        Some(m) => seq![PlayerEvent::MovementStarted(m)],
        None => seq![],
    };
    let attack: Seq<PlayerEvent> = if input.attack_just_pressed {
        seq![PlayerEvent::AttackStarted(AttackType::Melee)]
    } else {
        seq![]
    };
    movement + attack
}

/// The horizontal velocity write of the tick: the run speed in the held
/// direction; zero when grounded with no direction held; untouched in
/// the air with no direction held.
pub open spec fn spec_horizontal_command(input: InputState, motion: MotionStatus) -> Option<i32> {
    match spec_horizontal_direction(input) {
        Some(Direction::Left) => Some((-RUN_SPEED) as i32),
        Some(Direction::Right) => Some(RUN_SPEED),
        None => if motion.on_ground {
            Some(0)
        } else {
            None
        },
    }
}

/// Translates one tick of raw input and physics readings into bus events
/// and velocity writes.
pub fn handle_player_movement_and_input(input: InputState, motion: MotionStatus) -> (r: (
    Vec<PlayerEvent>,
    VelocityCommand,
))
    ensures
        r.0@ == spec_emitted_events(input, motion),
        r.1.horizontal == spec_horizontal_command(input, motion),
        r.1.vertical == (if spec_jump_fires(input, motion) {
            Some(JUMP_SPEED)
        } else {
            Option::<i32>::None
        }),
{
    let mut events: Vec<PlayerEvent> = Vec::new();
    let mut command = VelocityCommand { horizontal: None, vertical: None };

    let direction: Option<Direction> = if input.left_held && !input.right_held {
        Some(Direction::Left)
    } else if input.right_held && !input.left_held {
        Some(Direction::Right)
    } else {
        None
    };

    match direction {
        Some(Direction::Left) => {
            command.horizontal = Some(-RUN_SPEED);
        },
        Some(Direction::Right) => {
            command.horizontal = Some(RUN_SPEED);
        },
        None => {
            if motion.on_ground {
                command.horizontal = Some(0);
            }
        },
    }

    let jump_fires = input.jump_just_pressed && motion.on_ground && !motion.climbing;
    if jump_fires {
        command.vertical = Some(JUMP_SPEED);
    }

    let movement: Option<MovementType> = if !motion.on_ground && motion.falling {
        Some(MovementType::Fall)
    } else if jump_fires {
        Some(MovementType::Jump)
    } else if let Some(d) = direction {
        Some(MovementType::Run(d))
    } else if motion.on_ground {
        Some(MovementType::Idle)
    } else {
        None
    };

    if let Some(m) = movement {
        events.push(PlayerEvent::MovementStarted(m));
    }
    if input.attack_just_pressed {
        events.push(PlayerEvent::AttackStarted(AttackType::Melee));
    }

    proof {
        assert(events@ =~= spec_emitted_events(input, motion));
    }
    (events, command)
}

/// The horizontal flip after the bus's run events have been read: the
/// last `Run(direction)` event decides (`Left` flips), every other event
/// leaves the flip alone.
pub open spec fn spec_flip_after(flip: bool, events: Seq<PlayerEvent>) -> bool
    decreases events.len(),
{
    if events.len() == 0 {
        flip
    } else {
        let step = match events[0] {
            PlayerEvent::MovementStarted(MovementType::Run(d)) => d is Left,
            _ => flip,
        };
        spec_flip_after(step, events.skip(1))
    }
}

/// Reads the tick's events and updates the sprite's horizontal flip from
/// the last run direction.
pub fn handle_sprite_direction(flip_x: &mut bool, events: &Vec<PlayerEvent>)
    ensures
        *final(flip_x) == spec_flip_after(*old(flip_x), events@),
{
    let mut i: usize = 0;
    proof {
        assert(events@.skip(0) =~= events@);
    }
    while i < events.len()
        invariant
            i <= events.len(),
            spec_flip_after(*old(flip_x), events@) == spec_flip_after(*flip_x, events@.skip(i as int)),
        decreases events.len() - i,
    {
        proof {
            assert(events@.skip(i as int)[0] == events@[i as int]);
            assert(events@.skip(i as int).skip(1) =~= events@.skip(i as int + 1));
        }
        if let PlayerEvent::MovementStarted(MovementType::Run(d)) = events[i] {
            *flip_x = matches!(d, Direction::Left);
        }
        i = i + 1;
    }
}

} // verus!
