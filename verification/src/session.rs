//! The per-connection session: a state machine from upgrade to close. While
//! active it reacts to whichever fires first of an inbound client frame, a
//! broadcast delivery on its subscription, or a heartbeat tick; the caller
//! races the three sources, hands the winner in as an event, and performs
//! the returned action.

use vstd::prelude::*;

verus! {

/// The lifecycle of one streaming connection. `Closed` is terminal: a new
/// connection makes a new session.
#[derive(Clone, Copy, PartialEq, Eq, Structural, Debug)]
pub enum SessionState {
    Connecting,
    Active,
    Closed,
}

/// One occurrence a session reacts to.
#[derive(Debug)]
pub enum SessionEvent {
    /// The protocol upgrade succeeded.
    Established,
    /// A text frame arrived from the client.
    ClientText(String),
    /// The client sent a close frame.
    ClientClose,
    /// Any other frame type arrived from the client.
    ClientOther,
    /// Reading from the transport failed.
    ReadError,
    /// A message arrived on the broadcast subscription.
    Delivery(String),
    /// The recurring heartbeat timer fired.
    HeartbeatTick,
    /// Writing to the transport failed.
    WriteFailed,
}

/// What the caller must do after a step.
#[derive(Debug)]
pub enum SessionAction {
    /// Send the initial acknowledgement text frame (see [`greeting`]).
    Greet,
    /// Forward this broadcast payload to the client as a text frame.
    Forward(String),
    /// Send a liveness probe frame.
    Ping,
    /// Log this inbound text frame; it has no semantic handling.
    Record(String),
    /// Nothing to send.
    Ignore,
}

/// The transition function: next state and action for every state and event.
pub open spec fn step_spec(s: SessionState, e: SessionEvent) -> (SessionState, SessionAction) {
    match s {
        SessionState::Connecting => match e {
            SessionEvent::Established => (SessionState::Active, SessionAction::Greet),
            SessionEvent::WriteFailed => (SessionState::Closed, SessionAction::Ignore),
            _ => (SessionState::Connecting, SessionAction::Ignore),
        },
        SessionState::Active => match e {
            SessionEvent::Established => (SessionState::Active, SessionAction::Ignore),
            SessionEvent::ClientText(t) => (SessionState::Active, SessionAction::Record(t)),
            SessionEvent::ClientClose => (SessionState::Closed, SessionAction::Ignore),
            SessionEvent::ClientOther => (SessionState::Active, SessionAction::Ignore),
            SessionEvent::ReadError => (SessionState::Closed, SessionAction::Ignore),
            SessionEvent::Delivery(m) => (SessionState::Active, SessionAction::Forward(m)),
            SessionEvent::HeartbeatTick => (SessionState::Active, SessionAction::Ping),
            SessionEvent::WriteFailed => (SessionState::Closed, SessionAction::Ignore),
        },
        SessionState::Closed => (SessionState::Closed, SessionAction::Ignore),
    }
}

/// One live streaming connection, bound to its routing key.
pub struct Session {
    pub token: String,
    pub state: SessionState,
}

impl Session {
    /// Feeds one event in and says what to do; a closed session reacts to
    /// nothing and stays closed.
    pub fn step(&mut self, e: SessionEvent) -> (a: SessionAction)
        ensures
            (final(self).state, a) == step_spec(old(self).state, e),
            final(self).token == old(self).token,
    {
        match self.state {
            SessionState::Connecting => match e {
                SessionEvent::Established => {
                    self.state = SessionState::Active;
                    SessionAction::Greet
                },
                SessionEvent::WriteFailed => {
                    self.state = SessionState::Closed;
                    SessionAction::Ignore
                },
                _ => SessionAction::Ignore,
            },
            SessionState::Active => match e {
                SessionEvent::Established => SessionAction::Ignore,
                SessionEvent::ClientText(t) => SessionAction::Record(t),
                SessionEvent::ClientClose => {
                    self.state = SessionState::Closed;
                    SessionAction::Ignore
                },
                SessionEvent::ClientOther => SessionAction::Ignore,
                SessionEvent::ReadError => {
                    self.state = SessionState::Closed;
                    SessionAction::Ignore
                },
                SessionEvent::Delivery(m) => SessionAction::Forward(m),
                SessionEvent::HeartbeatTick => SessionAction::Ping,
                SessionEvent::WriteFailed => {
                    self.state = SessionState::Closed;
                    SessionAction::Ignore
                },
            },
            SessionState::Closed => SessionAction::Ignore,
        }
    }
}

/// The acknowledgement text the server sends as its first frame on a new
/// connection.
pub fn greeting() -> (r: &'static str)
    ensures
        r@ == "connected"@,
{
    "connected"
}

} // verus!
