//! How an exchange with the sensor can fail.

use vstd::prelude::*;

verus! {

/// Why an exchange with the sensor failed.
#[derive(Debug)]
pub enum DhtError<E> {
    /// The pin reported an error of its own while it was read or written.
    PinError(E),
    /// All forty bits arrived, but the last byte is not the sum of the first four.
    ChecksumMismatch,
    /// A bounded wait used up its budget before the line changed.
    Timeout,
}

impl<E> From<E> for DhtError<E> {
    fn from(error: E) -> (r: DhtError<E>) {
        DhtError::PinError(error)
    }
}

impl<E> vstd::std_specs::convert::FromSpecImpl<E> for DhtError<E> {
    open spec fn obeys_from_spec() -> bool {
        true
    }

    open spec fn from_spec(error: E) -> DhtError<E> {
        DhtError::PinError(error)
    }
}

} // verus!
