use platformer_core::event_bus::EventBus;
use platformer_core::player::{
    handle_player_movement_and_input, handle_sprite_direction, InputState, MotionStatus,
    JUMP_SPEED, RUN_SPEED,
};
use platformer_core::simulation::PlayerSim;
use platformer_core::state_machine::{
    AnimationType, AttackType, Direction, MovementType, PlayerEvent, PlayerState,
};

fn no_input() -> InputState {
    InputState {
        left_held: false,
        right_held: false,
        jump_just_pressed: false,
        attack_just_pressed: false,
    }
}

fn grounded() -> MotionStatus {
    MotionStatus {
        on_ground: true,
        climbing: false,
        falling: false,
    }
}

#[test]
fn running_right_emits_run_and_sets_velocity() {
    let input = InputState {
        right_held: true,
        ..no_input()
    };
    let (events, cmd) = handle_player_movement_and_input(input, grounded());
    assert_eq!(
        events,
        vec![PlayerEvent::MovementStarted(MovementType::Run(
            Direction::Right
        ))]
    );
    assert_eq!(cmd.horizontal, Some(RUN_SPEED));
    assert_eq!(cmd.vertical, None);
}

#[test]
fn running_left_emits_run_and_sets_velocity() {
    let input = InputState {
        left_held: true,
        ..no_input()
    };
    let (events, cmd) = handle_player_movement_and_input(input, grounded());
    assert_eq!(
        events,
        vec![PlayerEvent::MovementStarted(MovementType::Run(
            Direction::Left
        ))]
    );
    assert_eq!(cmd.horizontal, Some(-RUN_SPEED));
}

#[test]
fn both_directions_cancel_to_idle_on_ground() {
    let input = InputState {
        left_held: true,
        right_held: true,
        ..no_input()
    };
    let (events, cmd) = handle_player_movement_and_input(input, grounded());
    assert_eq!(events, vec![PlayerEvent::MovementStarted(MovementType::Idle)]);
    assert_eq!(cmd.horizontal, Some(0));
}

#[test]
fn grounded_jump_press_emits_jump() {
    let input = InputState {
        jump_just_pressed: true,
        ..no_input()
    };
    let (events, cmd) = handle_player_movement_and_input(input, grounded());
    assert_eq!(events, vec![PlayerEvent::MovementStarted(MovementType::Jump)]);
    assert_eq!(cmd.vertical, Some(JUMP_SPEED));
    assert_eq!(cmd.horizontal, Some(0));
}

#[test]
fn climbing_blocks_the_jump() {
    let input = InputState {
        jump_just_pressed: true,
        ..no_input()
    };
    let motion = MotionStatus {
        climbing: true,
        ..grounded()
    };
    let (events, cmd) = handle_player_movement_and_input(input, motion);
    assert_eq!(events, vec![PlayerEvent::MovementStarted(MovementType::Idle)]);
    assert_eq!(cmd.vertical, None);
}

#[test]
fn airborne_downward_motion_emits_fall() {
    let motion = MotionStatus {
        on_ground: false,
        climbing: false,
        falling: true,
    };
    let (events, cmd) = handle_player_movement_and_input(no_input(), motion);
    assert_eq!(events, vec![PlayerEvent::MovementStarted(MovementType::Fall)]);
    assert_eq!(cmd.horizontal, None);
    assert_eq!(cmd.vertical, None);
}

#[test]
fn airborne_rising_emits_nothing() {
    let motion = MotionStatus {
        on_ground: false,
        climbing: false,
        falling: false,
    };
    let (events, cmd) = handle_player_movement_and_input(no_input(), motion);
    assert!(events.is_empty());
    assert_eq!(cmd.horizontal, None);
}

#[test]
fn attack_key_emits_melee_attack_after_movement() {
    let input = InputState {
        attack_just_pressed: true,
        ..no_input()
    };
    let (events, _) = handle_player_movement_and_input(input, grounded());
    assert_eq!(
        events,
        vec![
            PlayerEvent::MovementStarted(MovementType::Idle),
            PlayerEvent::AttackStarted(AttackType::Melee),
        ]
    );
}

#[test]
fn sprite_flip_follows_last_run_direction() {
    let mut flip = false;
    let events = vec![
        PlayerEvent::MovementStarted(MovementType::Run(Direction::Left)),
        PlayerEvent::MovementStarted(MovementType::Run(Direction::Right)),
    ];
    handle_sprite_direction(&mut flip, &events);
    assert!(!flip);
    let events = vec![
        PlayerEvent::MovementStarted(MovementType::Run(Direction::Left)),
        PlayerEvent::MovementStarted(MovementType::Jump),
    ];
    handle_sprite_direction(&mut flip, &events);
    assert!(flip);
    handle_sprite_direction(&mut flip, &Vec::new());
    assert!(flip);
}

#[test]
fn event_bus_delivers_in_order_and_drains_once() {
    let mut bus = EventBus::new();
    bus.send(PlayerEvent::BlockStarted);
    bus.send_all(vec![
        PlayerEvent::MovementStarted(MovementType::Idle),
        PlayerEvent::BlockEnded,
    ]);
    let drained = bus.drain();
    assert_eq!(
        drained,
        vec![
            PlayerEvent::BlockStarted,
            PlayerEvent::MovementStarted(MovementType::Idle),
            PlayerEvent::BlockEnded,
        ]
    );
    assert!(bus.drain().is_empty());
}

#[test]
fn idle_simulation_cycles_the_idle_clip() {
    let mut sim = PlayerSim::new();
    let mut frames = Vec::new();
    for _ in 0..7 {
        sim.tick(no_input(), grounded(), true);
        frames.push(sim.sprite_index);
    }
    assert_eq!(frames, vec![0, 1, 2, 3, 4, 5, 0]);
    assert_eq!(sim.state, PlayerState::Idle);
}

#[test]
fn attack_plays_out_and_returns_to_idle() {
    let mut sim = PlayerSim::new();
    let attack = InputState {
        attack_just_pressed: true,
        ..no_input()
    };
    // The press queues the attack; the state machine consumes it this tick.
    sim.tick(attack, grounded(), false);
    assert_eq!(sim.state, PlayerState::Attacking);

    // Six timer fires play the attack clip through and hold its last frame.
    let mut frames = Vec::new();
    for _ in 0..6 {
        sim.tick(no_input(), grounded(), true);
        frames.push(sim.sprite_index);
    }
    assert_eq!(frames, vec![8, 9, 10, 11, 12, 13]);
    assert_eq!(sim.state, PlayerState::Attacking);

    // The next fire reports completion onto the bus; the frame holds.
    sim.tick(no_input(), grounded(), true);
    assert_eq!(sim.sprite_index, 13);
    assert_eq!(
        sim.bus.events,
        vec![PlayerEvent::AnimationCompleted(AnimationType::Attacking)]
    );

    // The following tick consumes it: the player is idle again.
    sim.tick(no_input(), grounded(), false);
    assert_eq!(sim.state, PlayerState::Idle);
}

#[test]
fn movement_during_attack_is_ignored_until_completion() {
    let mut sim = PlayerSim::new();
    let attack = InputState {
        attack_just_pressed: true,
        ..no_input()
    };
    sim.tick(attack, grounded(), false);
    let run = InputState {
        right_held: true,
        ..no_input()
    };
    for _ in 0..7 {
        sim.tick(run, grounded(), true);
        assert_eq!(sim.state, PlayerState::Attacking);
    }
    // Completion drains first, then the held key's run event wins.
    sim.tick(run, grounded(), false);
    assert_eq!(sim.state, PlayerState::Running);
}
