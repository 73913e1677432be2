//! The server side: recipient selectors, the state interface, the session
//! of one connection and the loop that accepts connections.

pub mod acceptor;
pub mod bus;
pub mod recipients;
pub mod session;
pub mod state;

pub use acceptor::Acceptor;
pub use recipients::Recipients;
pub use session::Session;
pub use state::State;
