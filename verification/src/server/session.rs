//! The session of one connection.
//!
//! A session starts when a connection is accepted and ends when the client
//! closes the connection or the bus is closed. In between it waits on two
//! sources, the broadcast bus and its own client, and reacts to whichever has
//! something first. What it waits on is the caller's; how it reacts to each
//! event is decided here.

use crate::channel::{DecodeFailure, Received};
use crate::server::bus::{event, event_of};
use crate::server::recipients::Recipients;
use crate::server::state::State;
use serde_json::Value;
use tokio::sync::broadcast::error::RecvError;
use vstd::laws_eq::obeys_concrete_eq;
use vstd::prelude::*;

verus! {

/// Where a session is in its life.
#[derive(Clone, Copy, Debug, PartialEq, Eq, Structural)]
pub enum SessionState {
    /// The connection was accepted; its channel is being set up.
    Joining,
    /// The session serves its client.
    Active,
    /// The session has ended.
    Closed,
}

/// Why a session did not become active.
#[derive(Clone, Copy, Debug, PartialEq, Eq, Structural)]
pub enum SetupError {
    /// The channel to the client could not be set up.
    ChannelFailed,
    /// The session was not joining.
    NotJoining,
}

/// One of the two sources that a session waits on.
#[derive(Clone, Copy, Debug, PartialEq, Eq, Structural)]
pub enum Source {
    /// The subscription to the broadcast bus.
    Bus,
    /// The client's half of the channel.
    Client,
}

impl Source {
    /// The other source.
    pub open spec fn other(self) -> Source {
        match self {
            Source::Bus => Source::Client,
            Source::Client => Source::Bus,
        }
    }
}

/// What the subscription to the broadcast bus yields.
#[derive(Debug)]
pub enum BusEvent<T> {
    /// A routed message: a payload and those it is for.
    Message { payload: Value, recipients: Recipients<T> },
    /// The session was too slow, and `missed` messages are lost to it.
    Lagged { missed: u64 },
    /// The bus is closed for good.
    Closed,
}

/// What a session does about the bus.
#[derive(Debug, PartialEq)]
pub enum BusAction {
    /// Send the payload to the client.
    Forward(Value),
    /// Tell the application that messages were missed.
    ReceiveError { missed: u64 },
    /// Tell the application that a payload could not be sent to the client.
    SendError,
    /// Release the channel and the subscription, and end.
    Close,
    /// Nothing.
    Nothing,
}

/// What a session does about its client.
#[derive(Debug, PartialEq)]
pub enum ClientAction<M> {
    /// Hand the message to the application's handler.
    Handle(M),
    /// Tell the application that the client sent something that is no
    /// message.
    BadMessage,
    /// Release the channel and the subscription, and end.
    Close,
    /// Nothing.
    Nothing,
}

/// The session of one connection.
#[derive(Debug)]
pub struct Session<T> {
    id: T,
    state: SessionState,
    turn: Source,
}

/// What a [`Session`] holds.
pub struct SessionView<T> {
    /// The identifier of the client.
    pub id: T,
    /// Where the session is in its life.
    pub state: SessionState,
    /// The source that is asked first when the session next waits.
    pub turn: Source,
}

impl<T> SessionView<T> {
    /// The session with the same client in another state.
    pub open spec fn in_state(self, state: SessionState) -> SessionView<T> {
        SessionView { state, ..self }
    }

    /// The session after it has waited once more: the turn has passed to the
    /// other source.
    pub open spec fn after_turn(self) -> SessionView<T> {
        SessionView { turn: self.turn.other(), ..self }
    }

    /// The session once its channel was set up, or could not be.
    pub open spec fn activated(self, channel_ready: bool) -> SessionView<T> {
        if self.state != SessionState::Joining {
            self
        } else if channel_ready {
            self.in_state(SessionState::Active)
        } else {
            self.in_state(SessionState::Closed)
        }
    }

    /// What the session does about an event of the bus.
    pub open spec fn bus_action(self, event: BusEvent<T>) -> BusAction {
        if self.state != SessionState::Active {
            BusAction::Nothing
        } else {
            match event {
                BusEvent::Message { payload, recipients } => if recipients.includes(self.id) {
                    BusAction::Forward(payload)
                } else {
                    BusAction::Nothing
                },
                BusEvent::Lagged { missed } => BusAction::ReceiveError { missed },
                BusEvent::Closed => BusAction::Close,
            }
        }
    }

    /// The session after an event of the bus.
    pub open spec fn after_bus_event(self, event: BusEvent<T>) -> SessionView<T> {
        if self.state == SessionState::Active && event is Closed {
            self.in_state(SessionState::Closed)
        } else {
            self
        }
    }

    /// What the session does once a payload was sent to the client, or could
    /// not be.
    pub open spec fn forward_action(self, delivered: bool) -> BusAction {
        if self.state == SessionState::Active && !delivered {
            BusAction::SendError
        } else {
            BusAction::Nothing
        }
    }

    /// What the session does about an event of its client.
    pub open spec fn client_action<M>(self, event: Received<M>) -> ClientAction<M> {
        if self.state != SessionState::Active {
            ClientAction::Nothing
        } else {
            match event {
                Received::Message(message) => ClientAction::Handle(message),
                Received::DecodeError(_) => ClientAction::BadMessage,
                Received::EndOfStream => ClientAction::Close,
            }
        }
    }

    /// The session after an event of its client.
    pub open spec fn after_client_event<M>(self, event: Received<M>) -> SessionView<T> {
        if self.state == SessionState::Active && event is EndOfStream {
            self.in_state(SessionState::Closed)
        } else {
            self
        }
    }
}

impl<T> View for Session<T> {
    type V = SessionView<T>;

    closed spec fn view(&self) -> SessionView<T> {
        SessionView { id: self.id, state: self.state, turn: self.turn }
    }
}

impl<T> Session<T> {
    /// The session of the client `id`, joining.
    pub fn new(id: T) -> (session: Session<T>)
        ensures
            session@ == (SessionView { id, state: SessionState::Joining, turn: Source::Bus }),
    {
        Session { id, state: SessionState::Joining, turn: Source::Bus }
    }

    /// The session of a connection that was just accepted: asks `state` for
    /// the identifier of the new client, once.
    pub fn join<S: State<ClientID = T>>(state: &mut S) -> (session: Session<T>)
        ensures
            session@.state == SessionState::Joining,
            session@.turn == Source::Bus,
    {
        let id = state.on_join();
        Session::new(id)
    }

    /// The identifier of the client.
    pub fn id(&self) -> (id: &T)
        ensures
            *id == self@.id,
    {
        &self.id
    }

    /// Where the session is in its life.
    pub fn state(&self) -> (state: SessionState)
        ensures
            state == self@.state,
    {
        self.state
    }

    /// Which of the two sources to ask first when the session next waits on
    /// both. The sources take turns, so that one which always has something
    /// cannot keep the other from being served.
    pub fn take_turn(&mut self) -> (first: Source)
        ensures
            first == old(self)@.turn,
            final(self)@ == old(self)@.after_turn(),
    {
        let first = self.turn;
        self.turn = match first {
            Source::Bus => Source::Client,
            Source::Client => Source::Bus,
        };
        first
    }

    /// Ends the joining: with its channel set up the session becomes active,
    /// without it the session is closed. The failure is the session's own:
    /// it is returned, to be reported, and concerns no other session.
    pub fn activate(&mut self, channel_ready: bool) -> (started: Result<(), SetupError>)
        ensures
            final(self)@ == old(self)@.activated(channel_ready),
            started == if old(self)@.state != SessionState::Joining {
                Err::<(), SetupError>(SetupError::NotJoining)
            } else if channel_ready {
                Ok::<(), SetupError>(())
            } else {
                Err::<(), SetupError>(SetupError::ChannelFailed)
            },
    {
        match self.state {
            SessionState::Joining => {
                if channel_ready {
                    self.state = SessionState::Active;
                    Ok(())
                } else {
                    self.state = SessionState::Closed;
                    Err(SetupError::ChannelFailed)
                }
            },
            _ => Err(SetupError::NotJoining),
        }
    }

    /// Reacts to what the client's half of the channel yielded: a message
    /// goes to the handler, something that is no message is reported and the
    /// session goes on, and the end of the stream ends the session.
    pub fn on_client_event<M>(&mut self, event: Received<M>) -> (action: ClientAction<M>)
        ensures
            action == old(self)@.client_action(event),
            final(self)@ == old(self)@.after_client_event(event),
    {
        match self.state {
            SessionState::Active => match event {
                Received::Message(message) => ClientAction::Handle(message),
                Received::DecodeError(_) => ClientAction::BadMessage,
                Received::EndOfStream => {
                    self.state = SessionState::Closed;
                    ClientAction::Close
                },
            },
            _ => ClientAction::Nothing,
        }
    }

    /// Reacts to the outcome of sending a payload to the client: a failure
    /// is reported, and the session goes on.
    pub fn after_forward(&mut self, delivered: bool) -> (action: BusAction)
        ensures
            action == old(self)@.forward_action(delivered),
            final(self)@ == old(self)@,
    {
        match self.state {
            SessionState::Active => if delivered {
                BusAction::Nothing
            } else {
                BusAction::SendError
            },
            _ => BusAction::Nothing,
        }
    }
}

impl<T: PartialEq> Session<T> {
    /// Reacts to what the bus yielded: a payload is forwarded if this
    /// session's client is among its recipients and dropped if not, missed
    /// messages are reported and the session goes on, and the end of the bus
    /// ends the session.
    pub fn on_bus_event(&mut self, event: BusEvent<T>) -> (action: BusAction)
        requires
            obeys_concrete_eq::<T>(),
        ensures
            action == old(self)@.bus_action(event),
            final(self)@ == old(self)@.after_bus_event(event),
    {
        match self.state {
            SessionState::Active => match event {
                BusEvent::Message { payload, recipients } => {
                    if recipients.matches(&self.id) {
                        BusAction::Forward(payload)
                    } else {
                        BusAction::Nothing
                    }
                },
                BusEvent::Lagged { missed } => BusAction::ReceiveError { missed },
                BusEvent::Closed => {
                    self.state = SessionState::Closed;
                    BusAction::Close
                },
            },
            _ => BusAction::Nothing,
        }
    }
}

impl<T: PartialEq> Session<T> {
    /// Reacts to what receiving from the bus returned, as
    /// [`Session::on_bus_event`] does to the event that it stands for.
    pub fn on_received(&mut self, received: Result<(Value, Recipients<T>), RecvError>) -> (action:
        BusAction)
        requires
            obeys_concrete_eq::<T>(),
        ensures
            action == old(self)@.bus_action(event(received)),
            final(self)@ == old(self)@.after_bus_event(event(received)),
    {
        self.on_bus_event(event_of(received))
    }
}

/// Fan-out: of the sessions that are active when a payload for a list of
/// recipients is published, exactly those whose client is on the list
/// forward it. The others do nothing, and every session stays as it was.
pub proof fn lemma_fan_out<T>(sessions: Seq<SessionView<T>>, payload: Value, subset: Vec<T>)
    requires
        forall|i: int| 0 <= i < sessions.len() ==> sessions[i].state == SessionState::Active,
    ensures
        forall|i: int|
            #![trigger sessions[i]]
            0 <= i < sessions.len() ==> {
                let event = BusEvent::Message {
                    payload,
                    recipients: Recipients::MultipleRecipients { recipients: subset },
                };
                &&& sessions[i].after_bus_event(event) == sessions[i]
                &&& sessions[i].bus_action(event) == if subset@.contains(sessions[i].id) {
                    BusAction::Forward(payload)
                } else {
                    BusAction::Nothing
                }
            },
{
}

/// Neither source is asked first twice in a row, whatever happens in
/// between: each wait passes the turn on, and no event touches it. So a
/// source that always has something is served at most every other time.
pub proof fn lemma_turns_alternate<T, M>(
    session: SessionView<T>,
    bus: BusEvent<T>,
    client: Received<M>,
    delivered: bool,
)
    ensures
        session.after_turn().turn != session.turn,
        session.after_turn().after_turn() == session,
        session.after_turn().after_bus_event(bus).turn == session.after_turn().turn,
        session.after_turn().after_client_event(client).turn == session.after_turn().turn,
        session.after_turn().after_bus_event(bus).after_turn().turn == session.turn,
        session.after_turn().after_client_event(client).after_turn().turn == session.turn,
{
}

/// A session serves one client for as long as it lasts: nothing that
/// happens to it changes the identifier.
pub proof fn lemma_identifier_is_kept<T, M>(
    session: SessionView<T>,
    bus: BusEvent<T>,
    client: Received<M>,
    channel_ready: bool,
)
    ensures
        session.activated(channel_ready).id == session.id,
        session.after_turn().id == session.id,
        session.after_bus_event(bus).id == session.id,
        session.after_client_event(client).id == session.id,
{
}

/// A bad message costs nothing but itself: an active session reports it,
/// stays active, and hands the next message to the handler.
pub proof fn lemma_bad_message_is_isolated<T, M>(
    session: SessionView<T>,
    why: DecodeFailure,
    next: M,
)
    requires
        session.state == SessionState::Active,
    ensures
        session.client_action(Received::<M>::DecodeError(why)) == ClientAction::<M>::BadMessage,
        session.after_client_event(Received::<M>::DecodeError(why)) == session,
        session.after_client_event(Received::<M>::DecodeError(why)).client_action(
            Received::Message(next),
        ) == ClientAction::Handle(next),
{
}

/// A session that lagged behind goes on: it reports how many messages it
/// missed, stays active, and treats the next message of the bus as any
/// other.
pub proof fn lemma_lag_is_survived<T>(session: SessionView<T>, missed: u64, next: BusEvent<T>)
    requires
        session.state == SessionState::Active,
    ensures
        session.bus_action(BusEvent::Lagged { missed }) == (BusAction::ReceiveError { missed }),
        session.after_bus_event(BusEvent::Lagged { missed }) == session,
        session.after_bus_event(BusEvent::Lagged { missed }).bus_action(next)
            == session.bus_action(next),
{
}

/// A failure to reach one client is that client's alone: the session
/// reports it and stays as it was.
pub proof fn lemma_send_failure_is_survived<T>(session: SessionView<T>)
    requires
        session.state == SessionState::Active,
    ensures
        session.forward_action(false) == BusAction::SendError,
        session.forward_action(true) == BusAction::Nothing,
{
}

/// A closed session stays closed and does nothing, whatever arrives.
pub proof fn lemma_closed_is_final<T, M>(
    session: SessionView<T>,
    bus: BusEvent<T>,
    client: Received<M>,
)
    requires
        session.state == SessionState::Closed,
    ensures
        session.bus_action(bus) == BusAction::Nothing,
        session.after_bus_event(bus) == session,
        session.client_action(client) == ClientAction::<M>::Nothing,
        session.after_client_event(client) == session,
        session.activated(true) == session,
        session.activated(false) == session,
{
}

} // verus!
