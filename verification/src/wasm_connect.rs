//! The settlement rule of the browser client's connection handshake.
//!
//! Opening the bridge socket races four outcomes: the socket opens, the
//! socket reports an error, the socket closes before opening, or the
//! client-side timer fires. Exactly one of them settles the connection;
//! whatever arrives afterwards is ignored. The host glue feeds each outcome
//! to [`connect_step`] and carries out the action it returns.
use vstd::prelude::*;

verus! {

/// An outcome reported while the bridge socket is opening.
#[derive(Debug, Clone)]
pub enum ConnectEvent {
    /// The socket finished its `open` handshake.
    Opened,
    /// The socket reported an error, rendered as text.
    Errored(String),
    /// The socket closed before it opened.
    Closed,
    /// The client-side timer fired.
    TimedOut,
}

/// What the host glue does in answer to an outcome.
#[derive(Debug, Clone)]
pub enum ConnectAction {
    /// Detach the handshake handlers, stop the timer and resolve the
    /// connection with a new client.
    Resolve,
    /// Detach the handshake handlers, stop the timer and reject the
    /// connection with this text.
    Reject(String),
    /// Close the socket and reject the connection with this text.
    CloseAndReject(String),
    /// The connection is already settled: do nothing.
    Ignore,
}

/// The handshake's two flags: whether an outcome is still awaited, and
/// whether the socket handlers have settled the connection.
#[derive(Debug, Clone, Copy, PartialEq, Eq)]
pub struct ConnectState {
    pub pending: bool,
    pub settled: bool,
}

/// The text a timed-out connection is rejected with.
pub open spec fn timeout_text() -> Seq<char> {
    "timeout: bridge WebSocket did not open in time"@
}

/// The text a connection that closed before opening is rejected with.
pub open spec fn closed_text() -> Seq<char> {
    "connection closed before open"@
}

/// Whether the handshake still accepts an outcome.
pub open spec fn open_for_outcome(s: ConnectState) -> bool {
    s.pending && !s.settled
}

/// The state after an outcome.
pub open spec fn next_state(s: ConnectState, e: ConnectEvent) -> ConnectState {
    match e {
        ConnectEvent::TimedOut => if s.pending {
            ConnectState { pending: false, settled: s.settled }
        } else {
            s
        },
        _ => if open_for_outcome(s) {
            ConnectState { pending: false, settled: true }
        } else {
            s
        },
    }
}

/// Whether an action is the one the rule gives for an outcome in a state.
pub open spec fn action_for(s: ConnectState, e: ConnectEvent, a: ConnectAction) -> bool {
    match e {
        ConnectEvent::TimedOut => if s.pending {
            a matches ConnectAction::CloseAndReject(t) && t@ == timeout_text()
        } else {
            a is Ignore
        },
        ConnectEvent::Opened => if open_for_outcome(s) {
            a is Resolve
        } else {
            a is Ignore
        },
        ConnectEvent::Errored(reason) => if open_for_outcome(s) {
            a matches ConnectAction::Reject(t) && t@ == reason@
        } else {
            a is Ignore
        },
        ConnectEvent::Closed => if open_for_outcome(s) {
            a matches ConnectAction::Reject(t) && t@ == closed_text()
        } else {
            a is Ignore
        },
    }
}

impl ConnectState {
    /// A handshake that has not seen any outcome.
    pub fn new() -> (r: ConnectState)
        ensures
            r.pending,
            !r.settled,
    {
        ConnectState { pending: true, settled: false }
    }
}

/// Applies one outcome to the handshake and says what to do about it.
pub fn connect_step(state: &mut ConnectState, event: ConnectEvent) -> (a: ConnectAction)
    ensures
        *final(state) == next_state(*old(state), event),
        action_for(*old(state), event, a),
{
    match event {
        ConnectEvent::TimedOut => {
            if state.pending {
                state.pending = false;
                ConnectAction::CloseAndReject(
                    "timeout: bridge WebSocket did not open in time".to_owned(),
                )
            } else {
                ConnectAction::Ignore
            }
        },
        ConnectEvent::Opened => {
            if !state.pending || state.settled {
                ConnectAction::Ignore
            } else {
                state.pending = false;
                state.settled = true;
                ConnectAction::Resolve
            }
        },
        ConnectEvent::Errored(reason) => {
            if !state.pending || state.settled {
                ConnectAction::Ignore
            } else {
                state.pending = false;
                state.settled = true;
                ConnectAction::Reject(reason)
            }
        },
        ConnectEvent::Closed => {
            if !state.pending || state.settled {
                ConnectAction::Ignore
            } else {
                state.pending = false;
                state.settled = true;
                ConnectAction::Reject("connection closed before open".to_owned())
            }
        },
    }
}

/// The first outcome a fresh handshake sees settles it, and every outcome
/// after that is ignored: a connection is resolved or rejected exactly once.
pub proof fn law_handshake_settles_once(first: ConnectEvent, later: ConnectEvent, a: ConnectAction)
    ensures
        !(action_for(ConnectState { pending: true, settled: false }, first, a) && a is Ignore),
        action_for(next_state(ConnectState { pending: true, settled: false }, first), later, a)
            ==> a is Ignore,
        next_state(next_state(ConnectState { pending: true, settled: false }, first), later)
            == next_state(ConnectState { pending: true, settled: false }, first),
{
}

} // verus!
