//! Every server has a state type which, at minimum, hands out an identifier
//! to each client that joins. Nothing else is asked of it: how the state is
//! shared between sessions (one lock round the whole of it, one lock per
//! field, atomics) is the application's choice, and a value of the state type
//! may be no more than a handle to what the sessions share.

use vstd::prelude::*;

verus! {

/// The state of a server.
pub trait State {
    /// The type used to uniquely identify clients.
    type ClientID;

    /// Called once for each client that connects. Must return an identifier
    /// that no live client holds, also when clients join at the same time.
    ///
    /// The library hands the identifier on as it is and never makes one up;
    /// that it is new is the implementation's part.
    fn on_join(&mut self) -> Self::ClientID;
}

} // verus!
