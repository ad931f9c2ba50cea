use platformer_core::animation::{animate_player_sprite, AnimationClip, PlayerAnimation};
use platformer_core::state_machine::{
    player_state_transition, AnimationType, AttackType, Direction, MovementType, PlayerEvent,
    PlayerState,
};

#[test]
fn spawn_state_is_idle() {
    assert_eq!(PlayerState::default(), PlayerState::Idle);
}

#[test]
fn movement_last_write_wins() {
    let events = vec![
        PlayerEvent::MovementStarted(MovementType::Idle),
        PlayerEvent::MovementStarted(MovementType::Run(Direction::Left)),
        PlayerEvent::MovementStarted(MovementType::Jump),
        PlayerEvent::MovementStarted(MovementType::Fall),
    ];
    assert_eq!(
        player_state_transition(PlayerState::Idle, &events),
        PlayerState::Falling
    );
    let events = vec![
        PlayerEvent::MovementStarted(MovementType::Fall),
        PlayerEvent::MovementStarted(MovementType::Run(Direction::Right)),
    ];
    assert_eq!(
        player_state_transition(PlayerState::Blocking, &events),
        PlayerState::Running
    );
}

#[test]
fn attacking_ignores_movement() {
    let events = vec![
        PlayerEvent::MovementStarted(MovementType::Run(Direction::Right)),
        PlayerEvent::MovementStarted(MovementType::Jump),
        PlayerEvent::MovementStarted(MovementType::Idle),
    ];
    assert_eq!(
        player_state_transition(PlayerState::Attacking, &events),
        PlayerState::Attacking
    );
}

#[test]
fn attack_completion_returns_to_idle() {
    let events = vec![PlayerEvent::AnimationCompleted(AnimationType::Attacking)];
    assert_eq!(
        player_state_transition(PlayerState::Attacking, &events),
        PlayerState::Idle
    );
    let events = vec![
        PlayerEvent::AnimationCompleted(AnimationType::Attacking),
        PlayerEvent::MovementStarted(MovementType::Run(Direction::Left)),
    ];
    assert_eq!(
        player_state_transition(PlayerState::Attacking, &events),
        PlayerState::Running
    );
}

#[test]
fn attack_preempts_any_state() {
    for s in [
        PlayerState::Idle,
        PlayerState::Running,
        PlayerState::Jumping,
        PlayerState::Falling,
        PlayerState::Blocking,
        PlayerState::Attacking,
    ] {
        let events = vec![PlayerEvent::AttackStarted(AttackType::Melee)];
        assert_eq!(player_state_transition(s, &events), PlayerState::Attacking);
    }
}

#[test]
fn block_start_and_end() {
    let events = vec![PlayerEvent::BlockStarted];
    assert_eq!(
        player_state_transition(PlayerState::Idle, &events),
        PlayerState::Blocking
    );
    let events = vec![PlayerEvent::BlockEnded];
    assert_eq!(
        player_state_transition(PlayerState::Blocking, &events),
        PlayerState::Idle
    );
}

#[test]
fn blocking_completion_left_without_transition() {
    // The blocking clip's completion signal carries no transition rule:
    // blocking only exits through an explicit block-end event.
    let events = vec![PlayerEvent::AnimationCompleted(AnimationType::Blocking)];
    assert_eq!(
        player_state_transition(PlayerState::Blocking, &events),
        PlayerState::Blocking
    );
}

#[test]
fn idle_clip_cycles_through_seven_fires() {
    let mut animation = PlayerAnimation::default();
    let mut sprite_index: u64 = 0;
    let mut frames = Vec::new();
    for _ in 0..7 {
        let completed = animate_player_sprite(&mut animation, PlayerState::Idle, &mut sprite_index);
        assert_eq!(completed, None);
        frames.push(sprite_index);
    }
    assert_eq!(frames, vec![0, 1, 2, 3, 4, 5, 0]);
}

#[test]
fn looping_clip_never_completes() {
    let mut animation = PlayerAnimation::default();
    let mut sprite_index: u64 = 16;
    for i in 0..40 {
        let completed =
            animate_player_sprite(&mut animation, PlayerState::Running, &mut sprite_index);
        assert_eq!(completed, None);
        assert_eq!(sprite_index, 16 + i % 8);
    }
}

#[test]
fn attack_clip_clamps_and_reports_completion() {
    let mut animation = PlayerAnimation::default();
    let mut sprite_index: u64 = 3; // an idle frame: outside the attack clip, so the cursor resets
    let mut frames = Vec::new();
    for _ in 0..6 {
        let completed =
            animate_player_sprite(&mut animation, PlayerState::Attacking, &mut sprite_index);
        assert_eq!(completed, None);
        frames.push(sprite_index);
    }
    assert_eq!(frames, vec![8, 9, 10, 11, 12, 13]);
    // The cursor has now reached the clip length: the frame holds and the
    // completion signal is reported from this fire onward.
    let completed =
        animate_player_sprite(&mut animation, PlayerState::Attacking, &mut sprite_index);
    assert_eq!(completed, Some(AnimationType::Attacking));
    assert_eq!(sprite_index, 13);
    let completed =
        animate_player_sprite(&mut animation, PlayerState::Attacking, &mut sprite_index);
    assert_eq!(completed, Some(AnimationType::Attacking));
    assert_eq!(sprite_index, 13);
}

#[test]
fn cursor_resets_exactly_on_out_of_clip_frame() {
    let mut animation = PlayerAnimation::default();
    let mut sprite_index: u64 = 0;
    // Three idle fires leave the cursor at 3.
    for _ in 0..3 {
        animate_player_sprite(&mut animation, PlayerState::Idle, &mut sprite_index);
    }
    assert_eq!(animation.current_frame_count, 3);
    assert_eq!(sprite_index, 2);
    // Frame 2 sits inside the idle clip [0, 6): no reset.
    animate_player_sprite(&mut animation, PlayerState::Idle, &mut sprite_index);
    assert_eq!(animation.current_frame_count, 4);
    assert_eq!(sprite_index, 3);
    // Frame 3 sits outside the running clip [16, 24): the cursor resets.
    animate_player_sprite(&mut animation, PlayerState::Running, &mut sprite_index);
    assert_eq!(animation.current_frame_count, 1);
    assert_eq!(sprite_index, 16);
}

#[test]
fn blocking_clip_plays_once() {
    let mut animation = PlayerAnimation::default();
    let mut sprite_index: u64 = 0;
    let mut frames = Vec::new();
    for _ in 0..3 {
        let completed =
            animate_player_sprite(&mut animation, PlayerState::Blocking, &mut sprite_index);
        assert_eq!(completed, None);
        frames.push(sprite_index);
    }
    assert_eq!(frames, vec![80, 81, 82]);
    let completed =
        animate_player_sprite(&mut animation, PlayerState::Blocking, &mut sprite_index);
    assert_eq!(completed, Some(AnimationType::Blocking));
    assert_eq!(sprite_index, 82);
}

#[test]
fn default_clip_table_matches_the_sheet() {
    let animation = PlayerAnimation::default();
    let table = animation.frames;
    assert_eq!(
        table.idle,
        AnimationClip {
            frame_index: 0,
            num_frames: 6
        }
    );
    assert_eq!(
        table.running,
        AnimationClip {
            frame_index: 16,
            num_frames: 8
        }
    );
    assert_eq!(
        table.attacking,
        AnimationClip {
            frame_index: 8,
            num_frames: 6
        }
    );
    assert_eq!(
        table.jumping,
        AnimationClip {
            frame_index: 24,
            num_frames: 9
        }
    );
    assert_eq!(
        table.falling,
        AnimationClip {
            frame_index: 33,
            num_frames: 7
        }
    );
    assert_eq!(
        table.blocking,
        AnimationClip {
            frame_index: 80,
            num_frames: 3
        }
    );
    assert_eq!(animation.current_frame_count, 0);
}
