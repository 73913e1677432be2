//! The broadcast bus: the bounded channel on which routed messages reach
//! every session.
//!
//! The channel is `tokio`'s broadcast channel. Each session has a
//! subscription of its own, with its own place in the stream of messages. A
//! session that is too slow loses the oldest messages and is told how many;
//! no publisher ever waits for it.

use crate::server::recipients::Recipients;
use crate::server::session::BusEvent;
use serde_json::Value;
use tokio::sync::broadcast::error::RecvError;
use tokio::sync::broadcast::{Receiver, Sender};
use vstd::prelude::*;

verus! {

/// How many routed messages the bus is asked to hold for a session that lags
/// behind.
pub const BUS_CAPACITY: usize = 10;

/// The sending half of `tokio`'s broadcast channel. Nothing inside it is
/// visible here.
#[verifier::external_type_specification]
#[verifier::external_body]
#[verifier::reject_recursive_types(T)]
pub struct ExSender<T>(Sender<T>);

/// The receiving half of `tokio`'s broadcast channel. Nothing inside it is
/// visible here.
#[verifier::external_type_specification]
#[verifier::external_body]
#[verifier::reject_recursive_types(T)]
pub struct ExReceiver<T>(Receiver<T>);

/// The error of receiving from `tokio`'s broadcast channel: the bus is
/// closed, or so many messages were missed.
#[verifier::external_type_specification]
pub struct ExRecvError(RecvError);

/// The handle with which routed messages are published.
pub type Publisher<T> = Sender<(Value, Recipients<T>)>;

/// The subscription of one session.
pub type Subscription<T> = Receiver<(Value, Recipients<T>)>;

/// `tokio::sync::broadcast::channel` makes a channel. It panics on a
/// capacity of zero and on one beyond half of `usize::MAX`, so neither is
/// let through. Nothing is claimed of the channel it makes.
pub assume_specification<T: Clone>[ tokio::sync::broadcast::channel::<T> ](capacity: usize) -> (bus: (
    Sender<T>,
    Receiver<T>,
))
    requires
        0 < capacity <= usize::MAX / 2,
;

/// `Sender::subscribe` makes a new subscription. Nothing is claimed of the
/// subscription it makes. It panics on a channel that counts
/// `usize::MAX / 4` subscriptions which were made and never dropped; that
/// count is the channel's own and out of reach of a contract, so it is left
/// to the program not to leak subscriptions.
pub assume_specification<T>[ Sender::<T>::subscribe ](publisher: &Sender<T>) -> (subscription:
    Receiver<T>)
;

/// `Sender::clone` makes another handle for publishing. It can be called on
/// any publisher; nothing is claimed of the handle it makes.
pub assume_specification<T>[ <Sender<T> as Clone>::clone ](publisher: &Sender<T>) -> (other: Sender<
    T,
>)
;

/// What `Receiver::recv` returned, as an event: a routed message arrives as
/// it was published, and an error is either the notice that messages were
/// missed or the end of the bus.
pub open spec fn event<T>(received: Result<(Value, Recipients<T>), RecvError>) -> BusEvent<T> {
    match received {
        Ok((payload, recipients)) => BusEvent::Message { payload, recipients },
        Err(RecvError::Lagged(missed)) => BusEvent::Lagged { missed },
        Err(RecvError::Closed) => BusEvent::Closed,
    }
}

/// Reads what `Receiver::recv` returned as an event.
pub fn event_of<T>(received: Result<(Value, Recipients<T>), RecvError>) -> (read: BusEvent<T>)
    ensures
        read == event(received),
{
    match received {
        Ok((payload, recipients)) => BusEvent::Message { payload, recipients },
        Err(RecvError::Lagged(missed)) => BusEvent::Lagged { missed },
        Err(RecvError::Closed) => BusEvent::Closed,
    }
}

/// Opens a bus of [`BUS_CAPACITY`], with a first subscription. The bus is
/// open for as long as one of its publishers lives, and publishing succeeds
/// for as long as one of its subscriptions does.
pub(crate) fn open<T: Clone>() -> (bus: (Publisher<T>, Subscription<T>)) {
    tokio::sync::broadcast::channel(BUS_CAPACITY)
}

} // verus!
