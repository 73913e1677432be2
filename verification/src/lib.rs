//! scot: Server-Client over TCP.
//!
//! The decisions of a many-client message server and of its client: who
//! receives a routed message, how a message is laid out on the wire, and how
//! a connection reacts to each event. Sockets and tasks belong to the
//! program that drives these decisions: it waits, reads and writes, and asks
//! here what to do about what it got.

pub mod channel;
pub mod client;
pub mod framing;
pub mod payload;
mod private;
pub mod server;

pub use server::recipients::Recipients;
