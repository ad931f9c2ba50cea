//! The per-tick event bus.
//!
//! An append-only queue of the gameplay events produced for the next
//! state-machine pass, delivered first-in first-out and drained exactly
//! once. Events the animation driver produces after the drain sit on the
//! bus until the following tick: the single-tick latency the control
//! flow relies on.

use vstd::prelude::*;

use crate::state_machine::PlayerEvent;

verus! {

/// The ordered queue of events awaiting the next state-machine drain.
#[derive(Clone, Debug, PartialEq, Eq)]
pub struct EventBus {
    pub events: Vec<PlayerEvent>,
}

impl EventBus {
    /// An empty bus.
    pub fn new() -> (bus: EventBus)
        ensures
            bus.events@ == Seq::<PlayerEvent>::empty(),
    {
        EventBus { events: Vec::new() }
    }

    /// Appends one event in production order.
    pub fn send(&mut self, event: PlayerEvent)
        ensures
            final(self).events@ == old(self).events@.push(event),
    {
        self.events.push(event);
    }

    /// Appends a producer's events, keeping their order.
    pub fn send_all(&mut self, events: Vec<PlayerEvent>)
        ensures
            final(self).events@ == old(self).events@ + events@,
    {
        let mut incoming = events;
        self.events.append(&mut incoming);
    }

    /// Takes every queued event, in production order, leaving the bus
    /// empty; each event is thus consumed exactly once.
    pub fn drain(&mut self) -> (drained: Vec<PlayerEvent>)
        ensures
            drained@ == old(self).events@,
            final(self).events@ == Seq::<PlayerEvent>::empty(),
    {
        let mut drained: Vec<PlayerEvent> = Vec::new();
        core::mem::swap(&mut drained, &mut self.events);
        drained
    }
}

} // verus!
