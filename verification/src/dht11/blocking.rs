//! Reading a DHT11 while the caller's thread waits.

use vstd::prelude::*;
use crate::dht11::{raw_to_reading, reading_of, Reading, RESET_MS};
use crate::error::DhtError;
use crate::pin::{Delay, InputOutputPin};
use crate::read::{drive, Engine, Exchange, Outcome, Response};

verus! {

/// What an exchange means for the caller once it is over: the reading that
/// its payload stands for, or the error it ended with.
pub open spec fn reading_result<E>(outcome: Outcome<E>) -> Option<Result<Reading, DhtError<E>>> {
    match outcome {
        Outcome::Pending(_) => None,
        Outcome::Done(Ok(bytes)) => Some(Ok(reading_of(bytes))),
        Outcome::Done(Err(error)) => Some(Err(error)),
    }
}

/// Wakes the sensor with its reset pulse, runs the exchange and decodes the
/// payload.
///
/// What the pin answers is not known beforehand, so the contract speaks of
/// the responses there can have been: the result is what the model of the
/// exchange makes of some sequence of responses, each answering the request
/// that was pending when it came.
pub fn read<E, D: Delay, P: InputOutputPin<E>>(
    delay: &mut D,
    pin: &mut P,
) -> (result: Result<Reading, DhtError<E>>)
    ensures
        exists|trace: Seq<Response<E>>|
            Exchange::begin(RESET_MS).answered_by(trace) && reading_result(
                #[trigger] Exchange::begin(RESET_MS).run(trace),
            ) == Some(result),
{
    match drive(Engine::begin(RESET_MS), delay, pin) {
        Ok(bytes) => Ok(raw_to_reading(bytes)),
        Err(error) => Err(error),
    }
}

} // verus!
