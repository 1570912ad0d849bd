//! The POP3 session lifecycle: a closed state enum and its transition table.

use vstd::prelude::*;

verus! {

/// The four states of a POP3 session. Transitions are strictly forward:
/// `Begin` on connect, `Authorization` once the greeting is read,
/// `Transaction` once login succeeds.
#[derive(Clone, Copy, PartialEq, Eq, Structural, Debug)]
pub enum POP3State {
    Begin,
    Authorization,
    Transaction,
    Update,
}

/// The events that may advance a session from one state to the next.
#[derive(Clone, Copy, PartialEq, Eq, Structural, Debug)]
pub enum SessionEvent {
    /// The server greeting was read and parsed.
    GreetingParsed,
    /// The final authentication command was accepted by the server.
    LoginSucceeded,
}

/// The permitted transitions of the session state machine.
/// Any pair not in the table is a contract violation by the caller.
pub open spec fn spec_transition(s: POP3State, e: SessionEvent) -> Option<POP3State> {
    match (s, e) {
        (POP3State::Begin, SessionEvent::GreetingParsed) => Some(POP3State::Authorization),
        (POP3State::Authorization, SessionEvent::LoginSucceeded) => Some(POP3State::Transaction),
        _ => None,
    }
}

/// The position of a state in the session lifecycle.
pub open spec fn state_rank(s: POP3State) -> int {
    match s {
        POP3State::Begin => 0,
        POP3State::Authorization => 1,
        POP3State::Transaction => 2,
        POP3State::Update => 3,
    }
}

/// Transitions are strictly forward: whatever event fires, a session never
/// returns to an earlier lifecycle state.
pub proof fn lemma_transitions_strictly_forward(s: POP3State, e: SessionEvent)
    ensures
        spec_transition(s, e) matches Some(t) ==> state_rank(t) > state_rank(s),
{
}

/// Advance the state machine by one event; `None` when the event is not
/// permitted in the given state.
pub fn transition(s: POP3State, e: SessionEvent) -> (r: Option<POP3State>)
    ensures
        r == spec_transition(s, e),
{
    match (s, e) {
        (POP3State::Begin, SessionEvent::GreetingParsed) => Some(POP3State::Authorization),
        (POP3State::Authorization, SessionEvent::LoginSucceeded) => Some(POP3State::Transaction),
        _ => None,
    }
}

} // verus!
