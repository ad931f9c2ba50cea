//! The animation driver: maps (state, elapsed ticks) to a sprite-frame
//! index.
//!
//! Each player state owns a clip: a contiguous run of sprite-sheet frame
//! indices. On every fixed-rate timer fire the driver advances a play
//! cursor. If the displayed frame lies outside the active state's clip
//! (the state changed since the last fire) the cursor resets to zero.
//! Looping clips display `start + cursor % length` forever; play-once
//! clips (`Attacking`, `Blocking`) clamp at the last frame and, from the
//! fire where the cursor has reached the clip length onward, emit an
//! `AnimationCompleted` event consumed by the state machine on the next
//! tick.

use vstd::prelude::*;

use crate::state_machine::{AnimationType, PlayerState};

verus! {

/// A contiguous run of sprite-sheet frames: `frame_index` is the first
/// frame, `num_frames` how many the clip holds.
#[derive(Clone, Copy, Debug, PartialEq, Eq, Structural)]
pub struct AnimationClip {
    pub frame_index: u64,
    pub num_frames: u64,
}

impl AnimationClip {
    /// A clip is well formed when it holds at least one frame and its
    /// frame range stays within the machine's integers.
    pub open spec fn wf(self) -> bool {
        &&& 1 <= self.num_frames
        &&& self.frame_index + self.num_frames <= u64::MAX
    }

    /// Whether a displayed sprite index lies inside this clip's range.
    pub open spec fn contains(self, index: u64) -> bool {
        self.frame_index <= index < self.frame_index + self.num_frames
    }
}

/// The static per-state clip table, read-only at runtime and owned by
/// each animation driver instance.
#[derive(Clone, Copy, Debug, PartialEq, Eq, Structural)]
pub struct AnimationClipTable {
    pub idle: AnimationClip,
    pub running: AnimationClip,
    pub attacking: AnimationClip,
    pub jumping: AnimationClip,
    pub falling: AnimationClip,
    pub blocking: AnimationClip,
}

impl AnimationClipTable {
    pub open spec fn wf(self) -> bool {
        &&& self.idle.wf()
        &&& self.running.wf()
        &&& self.attacking.wf()
        &&& self.jumping.wf()
        &&& self.falling.wf()
        &&& self.blocking.wf()
    }

    /// The clip the table assigns to a state.
    pub open spec fn spec_clip_for(self, state: PlayerState) -> AnimationClip {
        match state {
            PlayerState::Idle => self.idle,
            PlayerState::Running => self.running,
            PlayerState::Attacking => self.attacking,
            PlayerState::Jumping => self.jumping,
            PlayerState::Falling => self.falling,
            PlayerState::Blocking => self.blocking,
        }
    }

    /// Looks the active state's clip up.
    pub fn clip_for(&self, state: PlayerState) -> (clip: AnimationClip)
        ensures
            clip == self.spec_clip_for(state),
    {
        match state {
            PlayerState::Idle => self.idle,
            PlayerState::Running => self.running,
            PlayerState::Attacking => self.attacking,
            PlayerState::Jumping => self.jumping,
            PlayerState::Falling => self.falling,
            PlayerState::Blocking => self.blocking,
        }
    }
}

/// Whether a state's clip loops. `Attacking` and `Blocking` play once
/// and then hold their last frame; every other clip cycles forever.
pub open spec fn spec_is_looping(state: PlayerState) -> bool {
    !(state is Attacking || state is Blocking)
}

/// The animation-completion tag for a state.
pub open spec fn spec_animation_type(state: PlayerState) -> AnimationType {
    match state {
        PlayerState::Idle => AnimationType::Idle,
        PlayerState::Running => AnimationType::Running,
        PlayerState::Attacking => AnimationType::Attacking,
        PlayerState::Jumping => AnimationType::Jumping,
        PlayerState::Falling => AnimationType::Falling,
        PlayerState::Blocking => AnimationType::Blocking,
    }
}

/// The frame a clip displays at a given cursor value: looping clips
/// cycle through the clip with period `num_frames`, play-once clips
/// climb to the last frame and hold it.
pub open spec fn spec_display_frame(clip: AnimationClip, looping: bool, cursor: u64) -> int {
    if looping {
        clip.frame_index + (cursor as int % clip.num_frames as int)
    } else {
        if cursor < clip.num_frames - 1 {
            clip.frame_index + cursor
        } else {
            clip.frame_index + clip.num_frames - 1
        }
    }
}

/// The cursor value one timer fire works with: the stored cursor, or
/// zero exactly when the displayed sprite index fell outside the active
/// clip (that is, on any state change).
pub open spec fn spec_effective_cursor(
    clip: AnimationClip,
    displayed: u64,
    stored_cursor: u64,
) -> u64 {
    if clip.contains(displayed) {
        stored_cursor
    } else {
        0
    }
}

/// Per-player animation progress: the clip table and the play cursor
/// counting timer fires since the current state was entered. The
/// fixed-rate timer itself lives with the engine.
#[derive(Clone, Copy, Debug, PartialEq, Eq, Structural)]
pub struct PlayerAnimation {
    pub frames: AnimationClipTable,
    pub current_frame_count: u64,
}

impl PlayerAnimation {
    pub open spec fn wf(self) -> bool {
        self.frames.wf()
    }
}

/// The canonical clip table: Idle(0,6), Running(16,8), Jumping(24,9) and
/// Falling(33,7) loop; Attacking(8,6) and Blocking(80,3) play once.
pub open spec fn spec_default_clip_table() -> AnimationClipTable {
    AnimationClipTable {
        idle: AnimationClip { frame_index: 0, num_frames: 6 },
        running: AnimationClip { frame_index: 16, num_frames: 8 },
        attacking: AnimationClip { frame_index: 8, num_frames: 6 },
        jumping: AnimationClip { frame_index: 24, num_frames: 9 },
        falling: AnimationClip { frame_index: 33, num_frames: 7 },
        blocking: AnimationClip { frame_index: 80, num_frames: 3 },
    }
}

impl Default for PlayerAnimation {
    /// The canonical clip table with the play cursor at zero.
    fn default() -> (a: Self)
        ensures
            a.frames == spec_default_clip_table(),
            a.current_frame_count == 0,
            a.wf(),
    {
        PlayerAnimation {
            frames: AnimationClipTable {
                idle: AnimationClip { frame_index: 0, num_frames: 6 },
                running: AnimationClip { frame_index: 16, num_frames: 8 },
                attacking: AnimationClip { frame_index: 8, num_frames: 6 },
                jumping: AnimationClip { frame_index: 24, num_frames: 9 },
                falling: AnimationClip { frame_index: 33, num_frames: 7 },
                blocking: AnimationClip { frame_index: 80, num_frames: 3 },
            },
            current_frame_count: 0,
        }
    }
}

/// One timer fire of the animation driver for one player sprite.
///
/// Resets the cursor exactly when the displayed sprite index is outside
/// the active clip's range, writes the new displayed frame, advances the
/// cursor, and reports the completion event to push onto the bus: `Some`
/// exactly when a play-once clip's cursor has already reached the clip
/// length (so it keeps reporting on every later fire until the state
/// changes, as the state machine consumes the first one and leaves).
pub fn animate_player_sprite(
    animation: &mut PlayerAnimation,
    state: PlayerState,
    sprite_index: &mut u64,
) -> (completed: Option<AnimationType>)
    requires
        old(animation).wf(),
        old(animation).current_frame_count < u64::MAX,
    ensures
        final(animation).wf(),
        final(animation).frames == old(animation).frames,
        ({
            let clip = old(animation).frames.spec_clip_for(state);
            let cursor = spec_effective_cursor(clip, *old(sprite_index), old(animation).current_frame_count);
            &&& final(animation).current_frame_count == cursor + 1
            &&& *final(sprite_index) == spec_display_frame(clip, spec_is_looping(state), cursor)
            &&& completed == (if !spec_is_looping(state) && cursor >= clip.num_frames {
                Some(spec_animation_type(state))
            } else {
                Option::<AnimationType>::None
            })
        }),
{
    let clip = animation.frames.clip_for(state);

    if *sprite_index < clip.frame_index || *sprite_index >= clip.frame_index + clip.num_frames {
        animation.current_frame_count = 0;
    }

    let completed: Option<AnimationType> = match state {
        PlayerState::Attacking if animation.current_frame_count >= clip.num_frames => {
            Some(AnimationType::Attacking)
        },
        PlayerState::Blocking if animation.current_frame_count >= clip.num_frames => {
            Some(AnimationType::Blocking)
        },
        _ => None,
    };

    let next_frame: u64 = match state {
        PlayerState::Attacking | PlayerState::Blocking => {
            let capped = if animation.current_frame_count < clip.num_frames - 1 {
                animation.current_frame_count
            } else {
                clip.num_frames - 1
            };
            clip.frame_index + capped
        },
        _ => clip.frame_index + animation.current_frame_count % clip.num_frames,
    };

    *sprite_index = next_frame;
    animation.current_frame_count = animation.current_frame_count + 1;
    completed
}

/// Looping clips cycle: the displayed frame repeats with period equal to
/// the clip length, indefinitely (and, by `animate_player_sprite`'s
/// contract, a looping state never reports completion).
pub proof fn lemma_looping_frame_periodic(clip: AnimationClip, cursor: u64)
    requires
        clip.wf(),
        cursor + clip.num_frames <= u64::MAX,
    ensures
        spec_display_frame(clip, true, (cursor + clip.num_frames) as u64)
            == spec_display_frame(clip, true, cursor),
{
    let n = clip.num_frames as int;
    let c = cursor as int;
    assert((c + n) % n == c % n) by {
        vstd::arithmetic::div_mod::lemma_mod_add_multiples_vanish(c, n);
    }
}

/// Play-once clips climb monotonically and hold: a later cursor never
/// shows an earlier frame, and from cursor `num_frames - 1` onward the
/// displayed frame sits at the clip's last frame.
pub proof fn lemma_play_once_frame_monotonic(clip: AnimationClip, c1: u64, c2: u64)
    requires
        clip.wf(),
        c1 <= c2,
    ensures
        spec_display_frame(clip, false, c1) <= spec_display_frame(clip, false, c2),
        c1 >= clip.num_frames - 1 ==> spec_display_frame(clip, false, c1)
            == clip.frame_index + clip.num_frames - 1,
{
}

} // verus!
