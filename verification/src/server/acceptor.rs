//! The loop that accepts connections.
//!
//! The listener and the tasks are the caller's. Decided here: that a failure
//! of the listener stops the server for good, that a failure while one
//! connection is set up concerns that connection alone, and that every
//! accepted connection gets a session of its own, with an identifier from the
//! server's state and a subscription to the one bus of the server.

use crate::server::bus::{open, Publisher, Subscription};
use crate::server::session::{Session, SessionState, SetupError, Source};
use crate::server::state::State;
use vstd::prelude::*;

verus! {

/// Whether the server accepts connections.
#[derive(Clone, Copy, Debug, PartialEq, Eq, Structural)]
pub enum AcceptorState {
    /// The listener is bound, and connections are accepted.
    Listening,
    /// The listener has failed. The server has stopped.
    Stopped,
}

/// Why the server stopped, or did not start.
#[derive(Clone, Copy, Debug, PartialEq, Eq, Structural)]
pub enum ListenerError {
    /// The address could not be bound.
    Bind,
    /// The listener failed to accept a connection.
    Accept,
    /// The server had stopped before.
    Stopped,
}

/// The loop that accepts connections, with the bus that its sessions share.
#[verifier::reject_recursive_types(T)]
pub struct Acceptor<T> {
    state: AcceptorState,
    publisher: Publisher<T>,
    first: Subscription<T>,
}

/// What a connection starts with.
#[verifier::reject_recursive_types(T)]
pub struct Connection<T> {
    /// The session of the connection, joining.
    pub session: Session<T>,
    /// The session's own subscription to the bus. It was made before the
    /// client got its identifier, so nothing published for the client is
    /// lost.
    pub subscription: Subscription<T>,
    /// A handle for publishing on the bus, for the application's handler.
    pub publisher: Publisher<T>,
}

impl<T> View for Acceptor<T> {
    type V = AcceptorState;

    closed spec fn view(&self) -> AcceptorState {
        self.state
    }
}

impl<T: Clone> Acceptor<T> {
    /// The acceptor of a server whose listener was bound, with a new bus; or
    /// the error to hand to the caller where it could not be bound.
    pub fn start(bound: bool) -> (started: Result<Acceptor<T>, ListenerError>)
        ensures
            bound ==> (started matches Ok(acceptor) && acceptor@ == AcceptorState::Listening),
            !bound ==> started matches Err(ListenerError::Bind),
    {
        if bound {
            let (publisher, first) = open();
            Ok(Acceptor { state: AcceptorState::Listening, publisher, first })
        } else {
            Err(ListenerError::Bind)
        }
    }

    /// Whether the server accepts connections.
    pub fn state(&self) -> (state: AcceptorState)
        ensures
            state == self@,
    {
        self.state
    }

    /// Reacts to what the listener yielded. An accepted connection gets a
    /// subscription to the bus and then a session, joining, whose client has
    /// a new identifier from `state`. A failure of the listener stops the
    /// server: the error is for the caller of the server, and so is every
    /// later call. The state is asked for an identifier only where a session
    /// starts.
    pub fn on_accept<S: State<ClientID = T>>(&mut self, accepted: bool, state: &mut S) -> (next:
        Result<Connection<T>, ListenerError>)
        ensures
            match old(self)@ {
                AcceptorState::Listening => if accepted {
                    &&& next matches Ok(connection) && connection.session@.state
                        == SessionState::Joining && connection.session@.turn == Source::Bus
                    &&& final(self)@ == AcceptorState::Listening
                } else {
                    &&& next matches Err(ListenerError::Accept)
                    &&& final(self)@ == AcceptorState::Stopped
                    &&& *final(state) == *old(state)
                },
                AcceptorState::Stopped => {
                    &&& next matches Err(ListenerError::Stopped)
                    &&& final(self)@ == AcceptorState::Stopped
                    &&& *final(state) == *old(state)
                },
            },
    {
        match self.state {
            AcceptorState::Listening => {
                if accepted {
                    let publisher = self.publisher.clone();
                    let subscription = self.publisher.subscribe();
                    let session = Session::join(state);
                    Ok(Connection { session, subscription, publisher })
                } else {
                    self.state = AcceptorState::Stopped;
                    Err(ListenerError::Accept)
                }
            },
            AcceptorState::Stopped => Err(ListenerError::Stopped),
        }
    }

    /// Whether the server goes on after the channel of one session was set
    /// up, or could not be: it does, whatever came of the session.
    pub fn after_setup(&self, started: &Result<(), SetupError>) -> (go_on: bool)
        ensures
            go_on == (self@ == AcceptorState::Listening),
    {
        match self.state {
            AcceptorState::Listening => true,
            AcceptorState::Stopped => false,
        }
    }
}

} // verus!
