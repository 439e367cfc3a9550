//! Event-delivery mode of the input subsystem.
//!
//! The native library queues connection and motion events, suppresses them,
//! or reports which of the two it currently does; the three states are a
//! small integer code at the C boundary.

use vstd::prelude::*;

verus! {

/// How device events are delivered: queued (`Enable`), suppressed
/// (`Ignore`), or left as they are while the current mode is reported back
/// (`Query`).
#[derive(Copy, Clone, Debug, PartialEq, Eq, Structural)]
pub enum EventState {
    Query,
    Ignore,
    Enable,
}

/// The native code of an event-delivery state.
pub open spec fn event_state_code(s: EventState) -> int {
    match s {
        EventState::Query => -1,
        EventState::Ignore => 0,
        EventState::Enable => 1,
    }
}

/// The event-delivery state a native code denotes, if any.
pub open spec fn event_state_for_code(code: int) -> Option<EventState> {
    if code == -1 {
        Some(EventState::Query)
    } else if code == 0 {
        Some(EventState::Ignore)
    } else if code == 1 {
        Some(EventState::Enable)
    } else {
        None
    }
}

impl EventState {
    /// The native code of this state.
    pub fn code(self) -> (r: i32)
        ensures
            r == event_state_code(self),
    {
        match self {
            EventState::Query => -1,
            EventState::Ignore => 0,
            EventState::Enable => 1,
        }
    }

    /// The state a native code denotes; `None` for any other code.
    pub fn try_from_code(code: i32) -> (r: Option<EventState>)
        ensures
            r == event_state_for_code(code as int),
    {
        if code == -1 {
            Some(EventState::Query)
        } else if code == 0 {
            Some(EventState::Ignore)
        } else if code == 1 {
            Some(EventState::Enable)
        } else {
            None
        }
    }
}

/// Decoding the code of any event-delivery state returns that state.
pub proof fn lemma_event_state_round_trip(s: EventState)
    ensures
        event_state_for_code(event_state_code(s)) == Some(s),
{
}

} // verus!
