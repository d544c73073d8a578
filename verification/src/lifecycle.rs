//! The server lifecycle: accepting, draining, exiting.
//!
//! The serve loop is modeled as a state machine over two facts — whether
//! cancellation has been observed and how many requests are in flight.
//! Once draining, no new connection is accepted, but requests already in
//! flight still complete with a normal response; the process may exit when
//! the drain is complete.

use vstd::prelude::*;

verus! {

/// One observable event of the serve loop.
#[derive(Clone, Copy, Debug, PartialEq, Eq, Structural)]
pub enum ServerEvent {
    /// A client attempts a new connection.
    Connection,
    /// A request in flight has finished computing its response.
    RequestCompleted,
    /// The cancellation flag has been seen cancelled.
    CancelObserved,
}

/// What the serve loop does in reaction to an event.
#[derive(Clone, Copy, Debug, PartialEq, Eq, Structural)]
pub enum ServerAction {
    /// Take the connection and serve the request.
    AcceptConnection,
    /// Do not take the connection.
    RefuseConnection,
    /// Send the finished response to the client.
    SendResponse,
    /// Stop accepting and let in-flight work finish.
    BeginDrain,
}

/// The serve loop's state: whether it is draining, and how many accepted
/// requests have not yet been answered.
#[derive(Clone, Copy, Debug, PartialEq, Eq, Structural)]
pub struct ServerState {
    pub draining: bool,
    pub in_flight: u64,
}

/// The lifecycle transition: the state after an event, and the action the
/// loop takes. A connection is accepted exactly while not draining;
/// cancellation only stops acceptance and leaves in-flight work alone;
/// a completed request is always answered.
pub open spec fn step_of(s: ServerState, ev: ServerEvent) -> (ServerState, ServerAction) {
    match ev {
        ServerEvent::Connection => if s.draining {
            (s, ServerAction::RefuseConnection)
        } else {
            (
                ServerState { draining: s.draining, in_flight: (s.in_flight + 1) as u64 },
                ServerAction::AcceptConnection,
            )
        },
        ServerEvent::RequestCompleted => (
            ServerState { draining: s.draining, in_flight: (s.in_flight - 1) as u64 },
            ServerAction::SendResponse,
        ),
        ServerEvent::CancelObserved => (
            ServerState { draining: true, in_flight: s.in_flight },
            ServerAction::BeginDrain,
        ),
    }
}

impl ServerState {
    /// A freshly bound server: accepting, nothing in flight.
    pub fn new() -> (s: ServerState)
        ensures
            !s.draining,
            s.in_flight == 0,
    {
        ServerState { draining: false, in_flight: 0 }
    }

    /// Advances the lifecycle by one event and returns the action to take.
    pub fn step(&mut self, ev: ServerEvent) -> (a: ServerAction)
        requires
            ev is Connection ==> old(self).in_flight < u64::MAX,
            ev is RequestCompleted ==> old(self).in_flight > 0,
        ensures
            *final(self) == step_of(*old(self), ev).0,
            a == step_of(*old(self), ev).1,
    {
        match ev {
            ServerEvent::Connection => {
                if self.draining {
                    ServerAction::RefuseConnection
                } else {
                    self.in_flight = self.in_flight + 1;
                    ServerAction::AcceptConnection
                }
            },
            ServerEvent::RequestCompleted => {
                self.in_flight = self.in_flight - 1;
                ServerAction::SendResponse
            },
            ServerEvent::CancelObserved => {
                self.draining = true;
                ServerAction::BeginDrain
            },
        }
    }

    /// Whether the process may exit: cancellation was observed and the
    /// drain is complete.
    pub fn may_exit(&self) -> (b: bool)
        ensures
            b == (self.draining && self.in_flight == 0),
    {
        self.draining && self.in_flight == 0
    }
}

/// Draining is terminal: no event brings the server back to accepting —
/// there is no resume transition.
pub proof fn lemma_draining_is_terminal(s: ServerState, ev: ServerEvent)
    requires
        s.draining,
    ensures
        step_of(s, ev).0.draining,
{
}

/// Graceful drain: once cancellation has been observed, a new connection
/// is refused and the state does not change, while a request already in
/// flight still receives its normal completed response.
pub proof fn lemma_graceful_drain(s: ServerState)
    requires
        s.draining,
    ensures
        step_of(s, ServerEvent::Connection).1 == ServerAction::RefuseConnection,
        step_of(s, ServerEvent::Connection).0 == s,
        step_of(s, ServerEvent::RequestCompleted).1 == ServerAction::SendResponse,
        s.in_flight > 0 ==> step_of(s, ServerEvent::RequestCompleted).0.in_flight == s.in_flight
            - 1,
{
}

} // verus!
