//! The player's finite-state controller.
//!
//! The player is always in exactly one [`PlayerState`]. Each simulation
//! tick, the events produced this tick (plus any animation-completion
//! events deferred from the previous tick) are drained in arrival order
//! through a pure transition function; the last write wins. Attacking is
//! a commitment state: movement events cannot interrupt it, only an
//! `AnimationCompleted(Attacking)` signal (or a block/attack event) can.

use vstd::prelude::*;

verus! {

/// The discrete states of the player controller. Exactly one is active
/// at a time; the player spawns in `Idle` and there is no terminal state.
#[derive(Clone, Copy, Debug, PartialEq, Eq, Structural)]
pub enum PlayerState {
    Idle,
    Running,
    Attacking,
    Jumping,
    Falling,
    Blocking,
}

impl Default for PlayerState {
    /// The player spawns idle.
    fn default() -> (s: Self)
        ensures
            s is Idle,
    {
        PlayerState::Idle
    }
}

/// Which way the player is running; it also drives the sprite's
/// horizontal flip.
#[derive(Clone, Copy, Debug, PartialEq, Eq, Structural)]
pub enum Direction {
    Left,
    Right,
}

/// The movement intents the input translator can emit.
#[derive(Clone, Copy, Debug, PartialEq, Eq, Structural)]
pub enum MovementType {
    Idle,
    Run(Direction),
    Jump,
    Fall,
}

/// The kinds of attack; only `Melee` is currently wired to input.
#[derive(Clone, Copy, Debug, PartialEq, Eq, Structural)]
pub enum AttackType {
    Melee,
    Ranged,
    Special,
}

/// Tags which clip an animation-completion event speaks of; mirrors the
/// state names.
#[derive(Clone, Copy, Debug, PartialEq, Eq, Structural)]
pub enum AnimationType {
    Idle,
    Running,
    Jumping,
    Falling,
    Attacking,
    Blocking,
}

/// One semantic gameplay event. Produced by the input translator or the
/// animation driver; consumed exactly once by the state machine, in
/// production order within a tick.
#[derive(Clone, Copy, Debug, PartialEq, Eq, Structural)]
pub enum PlayerEvent {
    MovementStarted(MovementType),
    AttackStarted(AttackType),
    AnimationCompleted(AnimationType),
    BlockStarted,
    BlockEnded,
}

/// The state a movement event asks for when it is not ignored.
pub open spec fn spec_movement_target(m: MovementType) -> PlayerState {
    match m {
        MovementType::Idle => PlayerState::Idle,
        MovementType::Run(_) => PlayerState::Running,
        MovementType::Jump => PlayerState::Jumping,
        MovementType::Fall => PlayerState::Falling,
    }
}

/// One step of the transition relation. Movement events are ignored
/// while attacking; an attack always preempts; `AnimationCompleted`
/// returns an attacker to idle but is deliberately left without effect
/// for every other clip (in particular `Blocking`, which only exits via
/// `BlockEnded`).
pub open spec fn spec_transition(s: PlayerState, e: PlayerEvent) -> PlayerState {
    match e {
        PlayerEvent::MovementStarted(m) => if s is Attacking {
            s
        } else {
            spec_movement_target(m)
        },
        PlayerEvent::AttackStarted(_) => PlayerState::Attacking,
        PlayerEvent::AnimationCompleted(t) => if t is Attacking {
            PlayerState::Idle
        } else {
            s
        },
        PlayerEvent::BlockStarted => PlayerState::Blocking,
        PlayerEvent::BlockEnded => PlayerState::Idle,
    }
}

/// The state after draining a whole tick's events in arrival order.
pub open spec fn spec_drain(s: PlayerState, events: Seq<PlayerEvent>) -> PlayerState
    decreases events.len(),
{
    if events.len() == 0 {
        s
    } else {
        spec_drain(spec_transition(s, events[0]), events.skip(1))
    }
}

/// Drains one tick's events through the transition relation and returns
/// the state they settle on (the "next state" request the following tick
/// starts from).
pub fn player_state_transition(state: PlayerState, events: &Vec<PlayerEvent>) -> (next: PlayerState)
    ensures
        next == spec_drain(state, events@),
{
    let mut current = state;
    let mut i: usize = 0;
    proof {
        assert(events@.skip(0) =~= events@);
    }
    while i < events.len()
        invariant
            i <= events.len(),
            spec_drain(state, events@) == spec_drain(current, events@.skip(i as int)),
        decreases events.len() - i,
    {
        let ev = events[i];
        proof {
            assert(events@.skip(i as int)[0] == events@[i as int]);
            assert(events@.skip(i as int).skip(1) =~= events@.skip(i as int + 1));
        }
        current = match ev {
            PlayerEvent::MovementStarted(m) => if !matches!(current, PlayerState::Attacking) {
                match m {
                    MovementType::Idle => PlayerState::Idle,
                    MovementType::Run(_) => PlayerState::Running,
                    MovementType::Jump => PlayerState::Jumping,
                    MovementType::Fall => PlayerState::Falling,
                }
            } else {
                current
            },
            PlayerEvent::AttackStarted(_) => PlayerState::Attacking,
            PlayerEvent::AnimationCompleted(AnimationType::Attacking) => PlayerState::Idle,
            PlayerEvent::AnimationCompleted(_) => current,
            PlayerEvent::BlockStarted => PlayerState::Blocking,
            PlayerEvent::BlockEnded => PlayerState::Idle,
        };
        i = i + 1;
    }
    current
}

/// Last write wins: while the player is not attacking, a tick made only
/// of movement events lands exactly on the target of the last one.
pub proof fn lemma_movement_last_write_wins(s: PlayerState, events: Seq<PlayerEvent>)
    requires
        s !is Attacking,
        events.len() > 0,
        forall|i: int| 0 <= i < events.len() ==> events[i] is MovementStarted,
    ensures
        spec_drain(s, events) == spec_movement_target(events.last()->MovementStarted_0),
    decreases events.len(),
{
    let s1 = spec_transition(s, events[0]);
    assert(s1 == spec_movement_target(events[0]->MovementStarted_0));
    assert(s1 !is Attacking);
    if events.len() == 1 {
        assert(events.skip(1).len() == 0);
        assert(spec_drain(s1, events.skip(1)) == s1);
        assert(events.last() == events[0]);
    } else {
        assert(forall|i: int|
            0 <= i < events.skip(1).len() ==> #[trigger] events.skip(1)[i] is MovementStarted);
        lemma_movement_last_write_wins(s1, events.skip(1));
        assert(events.skip(1).last() == events.last());
    }
}

/// Draining a concatenation is draining the parts in turn.
pub proof fn lemma_drain_append(s: PlayerState, a: Seq<PlayerEvent>, b: Seq<PlayerEvent>)
    ensures
        spec_drain(s, a + b) == spec_drain(spec_drain(s, a), b),
    decreases a.len(),
{
    if a.len() == 0 {
        assert(a + b =~= b);
    } else {
        assert((a + b)[0] == a[0]);
        assert((a + b).skip(1) =~= a.skip(1) + b);
        lemma_drain_append(spec_transition(s, a[0]), a.skip(1), b);
    }
}

/// Attacking is a commitment: no sequence of movement events moves the
/// state off `Attacking`; only a completion, block or attack event can.
pub proof fn lemma_attacking_ignores_movement(events: Seq<PlayerEvent>)
    requires
        forall|i: int| 0 <= i < events.len() ==> events[i] is MovementStarted,
    ensures
        spec_drain(PlayerState::Attacking, events) == PlayerState::Attacking,
    decreases events.len(),
{
    if events.len() > 0 {
        assert(spec_transition(PlayerState::Attacking, events[0]) == PlayerState::Attacking);
        assert(forall|i: int|
            0 <= i < events.skip(1).len() ==> #[trigger] events.skip(1)[i] is MovementStarted);
        lemma_attacking_ignores_movement(events.skip(1));
    }
}

/// The commitment ends in idle: however many movement events arrive
/// while attacking, the attack clip's completion signal returns the
/// player to idle.
pub proof fn lemma_attack_completion_exits_to_idle(movement: Seq<PlayerEvent>)
    requires
        forall|i: int| 0 <= i < movement.len() ==> movement[i] is MovementStarted,
    ensures
        spec_drain(
            PlayerState::Attacking,
            movement.push(PlayerEvent::AnimationCompleted(AnimationType::Attacking)),
        ) == PlayerState::Idle,
{
    let completion = PlayerEvent::AnimationCompleted(AnimationType::Attacking);
    lemma_attacking_ignores_movement(movement);
    assert(movement.push(completion) =~= movement + seq![completion]);
    lemma_drain_append(PlayerState::Attacking, movement, seq![completion]);
    assert(seq![completion].skip(1) =~= Seq::<PlayerEvent>::empty());
    assert(seq![completion][0] == completion);
    assert(spec_transition(PlayerState::Attacking, completion) == PlayerState::Idle);
    assert(spec_drain(PlayerState::Attacking, seq![completion]) == spec_drain(
        PlayerState::Idle,
        seq![completion].skip(1),
    ));
}

} // verus!
