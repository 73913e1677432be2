//! A trait and a marker that keep users from calling trait functions that
//! are meant for the library alone: the module is private, so only the
//! library can name either.

use vstd::prelude::*;

verus! {

/// Implemented by [`InternalFlag`] and by nothing else.
pub trait Internal {

}

/// The marker that stands for the library itself.
pub enum InternalFlag {
    /// The only value.
    Library,
}

impl Internal for InternalFlag {

}

} // verus!
