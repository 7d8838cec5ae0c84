//! Single-slot, last-write-wins event mailbox between the button task and the
//! LED task.
//!
//! A send overwrites any unconsumed earlier event, so rapid repeated button
//! presses coalesce into one pending event instead of queueing a backlog; a
//! take consumes the slot atomically. The suspension of a waiting task is the
//! runtime's business: a waiter polls [`EventSignal::try_take`] and suspends
//! while it returns nothing.

use vstd::prelude::*;

verus! {

/// Event produced by the button task.
#[derive(Debug, Clone, Copy, PartialEq, Eq, Structural)]
pub enum ButtonEvent {
    Pressed,
}

/// The slot after a send: the new event, whatever was pending before.
pub open spec fn spec_signal(slot: Option<ButtonEvent>, event: ButtonEvent) -> Option<ButtonEvent> {
    Some(event)
}

/// The slot paired as (delivered event, slot after the take): a take hands
/// out whatever was pending and leaves the slot empty.
pub open spec fn spec_take(slot: Option<ButtonEvent>) -> (Option<ButtonEvent>, Option<
    ButtonEvent,
>) {
    (slot, None)
}

/// Single-slot mailbox holding at most one pending event.
pub struct EventSignal {
    slot: Option<ButtonEvent>,
}

impl EventSignal {
    /// The event currently pending, if any.
    pub closed spec fn pending(&self) -> Option<ButtonEvent> {
        self.slot
    }

    /// Creates an empty signal.
    pub fn new() -> (s: Self)
        ensures
            s.pending() is None,
    {
        EventSignal { slot: None }
    }

    /// Stores an event, overwriting any unconsumed earlier one; never blocks.
    pub fn signal(&mut self, event: ButtonEvent)
        ensures
            final(self).pending() == spec_signal(old(self).pending(), event),
            final(self).pending() == Some(event),
    {
        self.slot = Some(event);
    }

    /// Takes and clears the pending event, if any. A waiter that needs the
    /// blocking `wait` of the design polls this at its suspension point.
    pub fn try_take(&mut self) -> (r: Option<ButtonEvent>)
        ensures
            (r, final(self).pending()) == spec_take(old(self).pending()),
            r == old(self).pending(),
            final(self).pending() is None,
    {
        let taken = self.slot;
        self.slot = None;
        taken
    }

    /// Whether an event is pending, without consuming it.
    pub fn signaled(&self) -> (b: bool)
        ensures
            b == (self.pending() is Some),
    {
        self.slot.is_some()
    }
}

/// Event coalescing: two sends before any take collapse to exactly one
/// delivered event — the later one — and a second take delivers nothing, so
/// no event is ever observed twice.
pub proof fn lemma_event_coalescing(slot0: Option<ButtonEvent>, e1: ButtonEvent, e2: ButtonEvent)
    ensures
        ({
            let pending = spec_signal(spec_signal(slot0, e1), e2);
            let (first, after_first) = spec_take(pending);
            let (second, after_second) = spec_take(after_first);
            first == Some(e2) && second is None && after_second is None
        }),
{
}

} // verus!
