//! Results of operations that may have to be tried again.

use vstd::prelude::*;

verus! {

/// Why an operation did not complete.
#[derive(Debug, PartialEq, Eq, Structural)]
pub enum Error<E> {
    /// It failed, for good.
    Other(E),
    /// It cannot complete yet and is to be tried again.
    WouldBlock,
}

/// Result of an operation that may have to be tried again.
pub type Result<T, E> = core::result::Result<T, Error<E>>;

} // verus!
