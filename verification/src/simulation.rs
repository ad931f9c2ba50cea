//! One player's simulation state and the per-tick control flow.
//!
//! Each tick runs, in order: the input translator (producing events and
//! velocity commands), the state-machine drain of everything on the bus,
//! the sprite-flip update, and — when the fixed-rate animation timer
//! fired — the animation driver, whose completion event lands on the bus
//! and is consumed on the *next* tick. The state the drain settles on is
//! likewise what the *next* tick's animation reads: both one-tick
//! latencies are part of the design and kept here.

use vstd::prelude::*;

use crate::animation::{
    animate_player_sprite, spec_animation_type, spec_display_frame, spec_effective_cursor,
    spec_is_looping, PlayerAnimation,
};
use crate::event_bus::EventBus;
use crate::player::{
    handle_player_movement_and_input, handle_sprite_direction, spec_emitted_events,
    spec_horizontal_command, spec_jump_fires, InputState, MotionStatus, VelocityCommand,
    JUMP_SPEED,
};
use crate::state_machine::{player_state_transition, spec_drain, PlayerEvent, PlayerState};
use crate::player::spec_flip_after;
use crate::state_machine::AnimationType;

verus! {

/// Everything the core owns for one player: the controller state, the
/// animation progress, the displayed sprite frame and flip, and the
/// event bus between the producers and the state machine.
#[derive(Clone, Debug, PartialEq, Eq)]
pub struct PlayerSim {
    pub state: PlayerState,
    pub animation: PlayerAnimation,
    pub sprite_index: u64,
    pub flip_x: bool,
    pub bus: EventBus,
}

impl PlayerSim {
    pub open spec fn wf(self) -> bool {
        self.animation.wf()
    }

    /// A freshly spawned player: idle, the canonical clip table, frame
    /// zero, facing right, nothing queued.
    pub fn new() -> (sim: PlayerSim)
        ensures
            sim.state is Idle,
            sim.animation.frames == crate::animation::spec_default_clip_table(),
            sim.animation.current_frame_count == 0,
            sim.sprite_index == 0,
            !sim.flip_x,
            sim.bus.events@ == Seq::<PlayerEvent>::empty(),
            sim.wf(),
    {
        PlayerSim {
            state: PlayerState::default(),
            animation: PlayerAnimation::default(),
            sprite_index: 0,
            flip_x: false,
            bus: EventBus::new(),
        }
    }

    /// Runs one simulation tick and returns the velocity writes for the
    /// physics layer. `timer_fired` says whether the fixed-rate
    /// animation timer elapsed during this tick.
    pub fn tick(&mut self, input: InputState, motion: MotionStatus, timer_fired: bool) -> (cmd:
        VelocityCommand)
        requires
            old(self).wf(),
            old(self).animation.current_frame_count < u64::MAX,
        ensures
            final(self).wf(),
            final(self).animation.frames == old(self).animation.frames,
            cmd.horizontal == spec_horizontal_command(input, motion),
            cmd.vertical == (if spec_jump_fires(input, motion) {
                Some(JUMP_SPEED)
            } else {
                Option::<i32>::None
            }),
            ({
                let events = old(self).bus.events@ + spec_emitted_events(input, motion);
                &&& final(self).state == spec_drain(old(self).state, events)
                &&& final(self).flip_x == spec_flip_after(old(self).flip_x, events)
            }),
            !timer_fired ==> {
                &&& final(self).animation == old(self).animation
                &&& final(self).sprite_index == old(self).sprite_index
                &&& final(self).bus.events@ == Seq::<PlayerEvent>::empty()
            },
            timer_fired ==> ({
                let clip = old(self).animation.frames.spec_clip_for(old(self).state);
                let cursor = spec_effective_cursor(
                    clip,
                    old(self).sprite_index,
                    old(self).animation.current_frame_count,
                );
                let looping = spec_is_looping(old(self).state);
                &&& final(self).animation.current_frame_count == cursor + 1
                &&& final(self).sprite_index == spec_display_frame(clip, looping, cursor)
                &&& final(self).bus.events@ == (if !looping && cursor >= clip.num_frames {
                    seq![
                        PlayerEvent::AnimationCompleted(spec_animation_type(old(self).state)),
                    ]
                } else {
                    Seq::<PlayerEvent>::empty()
                })
            }),
    {
        let (input_events, cmd) = handle_player_movement_and_input(input, motion);

        let mut events = self.bus.drain();
        let mut incoming = input_events;
        events.append(&mut incoming);

        let next_state = player_state_transition(self.state, &events);
        handle_sprite_direction(&mut self.flip_x, &events);

        if timer_fired {
            let completed: Option<AnimationType> = animate_player_sprite(
                &mut self.animation,
                self.state,
                &mut self.sprite_index,
            );
            if let Some(animation_type) = completed {
                self.bus.send(PlayerEvent::AnimationCompleted(animation_type));
            }
        }

        self.state = next_state;
        cmd
    }
}

} // verus!
