//! The client side.
//!
//! A client connects once and then does two things at the same time, which
//! share nothing: it hands each message of the server to the application,
//! and it asks the application for the next thing to send. Decided here is
//! how the first of these reacts to what the channel yields; the second has
//! nothing to decide.

use crate::channel::{DecodeFailure, Received};
use vstd::prelude::*;

verus! {

/// What a client does about what the server's half of the channel yielded.
#[derive(Debug, PartialEq)]
pub enum ServerAction<M> {
    /// Hand the message to the application's handler.
    Handle(M),
    /// Tell the application that the server sent something that is no
    /// message, and why it is none.
    BadMessage(DecodeFailure),
    /// Stop reading: the server has closed the connection.
    Stop,
    /// Nothing: reading had stopped before.
    Nothing,
}

/// The reading side of a client.
#[derive(Debug)]
pub struct Inbox {
    reading: bool,
}

impl View for Inbox {
    type V = bool;

    /// Whether the client still reads what the server sends.
    closed spec fn view(&self) -> bool {
        self.reading
    }
}

/// What a client that reads does about an event.
pub open spec fn server_action<M>(reading: bool, event: Received<M>) -> ServerAction<M> {
    if !reading {
        ServerAction::Nothing
    } else {
        match event {
            Received::Message(message) => ServerAction::Handle(message),
            Received::DecodeError(why) => ServerAction::BadMessage(why),
            Received::EndOfStream => ServerAction::Stop,
        }
    }
}

impl Inbox {
    /// The reading side of a client that has just connected.
    pub fn new() -> (inbox: Inbox)
        ensures
            inbox@,
    {
        Inbox { reading: true }
    }

    /// Whether the client still reads what the server sends.
    pub fn is_reading(&self) -> (reading: bool)
        ensures
            reading == self@,
    {
        self.reading
    }

    /// Reacts to what the server's half of the channel yielded: a message
    /// goes to the handler, something that is no message is reported and
    /// reading goes on, and the end of the stream ends the reading.
    pub fn on_server_event<M>(&mut self, event: Received<M>) -> (action: ServerAction<M>)
        ensures
            action == server_action(old(self)@, event),
            final(self)@ == (old(self)@ && !(event is EndOfStream)),
    {
        if !self.reading {
            return ServerAction::Nothing;
        }
        match event {
            Received::Message(message) => ServerAction::Handle(message),
            Received::DecodeError(why) => ServerAction::BadMessage(why),
            Received::EndOfStream => {
                self.reading = false;
                ServerAction::Stop
            },
        }
    }
}

} // verus!
