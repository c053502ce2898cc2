//! The edge-triggered exchange as a state machine: what it asks of the
//! host, what it takes back, and where each response leads.

use vstd::prelude::*;
use crate::error::DhtError;
use crate::frame::{decode, FRAME_BITS};

verus! {

/// How long each awaited signal may take before the exchange gives up, in milliseconds.
pub const TIMEOUT: u32 = 1000;

/// How long the host holds the line low to wake the sensor, in milliseconds.
pub const RESET_MS: u32 = 18;

/// The width that tells the bits apart, in microseconds: a high pulse that
/// outlasts it is a one, a shorter one is a zero.
pub const BIT_WINDOW_US: u32 = 40;

/// A change of the line that the host can sleep on.
#[derive(Clone, Copy, Debug, PartialEq, Eq)]
pub enum Signal {
    /// The line is low.
    Low,
    /// The line is high.
    High,
    /// The line goes from low to high.
    RisingEdge,
}

/// What the host is to do next.
#[derive(Clone, Copy, Debug, PartialEq, Eq)]
pub enum Request {
    /// Drive the line low.
    SetLow,
    /// Release the line.
    SetHigh,
    /// Sleep for this many milliseconds.
    DelayMs(u32),
    /// Sleep until the signal comes, for `timeout_ms` milliseconds at most.
    Await {
        /// What to sleep on.
        signal: Signal,
        /// After how many milliseconds to give up.
        timeout_ms: u32,
    },
    /// Sleep until the line is low, for `window_us` microseconds at most.
    Measure {
        /// After how many microseconds the pulse counts as long.
        window_us: u32,
    },
}

/// What came of a request.
#[derive(Debug)]
pub enum Response<E> {
    /// The line was driven, or the pin refused.
    Written(Result<(), E>),
    /// The sleep is over.
    Elapsed,
    /// The wait on the pin ended before the timer ran out: the signal came,
    /// or the pin gave up with an error.
    Arrived(Result<(), E>),
    /// The timer ran out first.
    Expired,
}

impl<E> Response<E> {
    /// The error of the pin that the response carries, if it carries one.
    pub open spec fn fault(self) -> Option<E> {
        match self {
            Response::Written(Err(error)) | Response::Arrived(Err(error)) => Some(error),
            _ => None,
        }
    }

    /// Whether this is the kind of response that the request calls for.
    pub open spec fn answers(self, request: Request) -> bool {
        match request {
            Request::SetLow | Request::SetHigh => self is Written,
            Request::DelayMs(_) => self is Elapsed,
            Request::Await { .. } | Request::Measure { .. } => self is Arrived || self is Expired,
        }
    }
}

/// Where an exchange stands.
#[derive(Clone, Copy, Debug, PartialEq, Eq)]
pub enum Stage {
    /// The host is about to pull the line low.
    Reset,
    /// The host holds the line low.
    ResetHold,
    /// The host is about to release the line.
    Release,
    /// Waiting for the sensor to pull the line low.
    AckLow,
    /// Waiting for the sensor to let the line go high.
    AckHigh,
    /// Waiting for the line to go low before the first bit.
    DataLow,
    /// Waiting for the rising edge of the next bit.
    BitEdge,
    /// Measuring the high pulse of a bit against the window.
    BitWidth,
}

impl Stage {
    /// The signal that the stage sleeps on, if it does.
    pub open spec fn awaited(self) -> Option<Signal> {
        match self {
            Stage::AckLow | Stage::DataLow => Some(Signal::Low),
            Stage::AckHigh => Some(Signal::High),
            Stage::BitEdge => Some(Signal::RisingEdge),
            _ => None,
        }
    }
}

/// The model of an exchange: its stage and the bits told so far.
pub struct Exchange {
    /// Where the exchange stands.
    pub stage: Stage,
    /// The bits told so far, in the order of arrival.
    pub received: Seq<bool>,
}

/// What an exchange has come to: it goes on, or it is over.
pub enum Outcome<E> {
    /// The exchange goes on from here.
    Pending(Exchange),
    /// The exchange is over: the payload, or why there is none.
    Done(Result<[u8; 4], DhtError<E>>),
}

impl Exchange {
    /// An exchange about to begin.
    pub open spec fn begin() -> Exchange {
        Exchange { stage: Stage::Reset, received: Seq::empty() }
    }

    /// The states that an exchange can be in.
    pub open spec fn wf(self) -> bool {
        match self.stage {
            Stage::BitEdge | Stage::BitWidth => self.received.len() < FRAME_BITS,
            _ => self.received.len() == 0,
        }
    }

    /// What the host is to do next.
    pub open spec fn request(self) -> Request {
        match self.stage {
            Stage::Reset => Request::SetLow,
            Stage::ResetHold => Request::DelayMs(RESET_MS),
            Stage::Release => Request::SetHigh,
            Stage::AckLow | Stage::DataLow => Request::Await {
                signal: Signal::Low,
                timeout_ms: TIMEOUT,
            },
            Stage::AckHigh => Request::Await { signal: Signal::High, timeout_ms: TIMEOUT },
            Stage::BitEdge => Request::Await { signal: Signal::RisingEdge, timeout_ms: TIMEOUT },
            Stage::BitWidth => Request::Measure { window_us: BIT_WINDOW_US },
        }
    }

    /// The exchange after one more bit: over with the fortieth, else waiting
    /// for the next.
    pub open spec fn told<E>(self, bit: bool) -> Outcome<E> {
        let received = self.received.push(bit);
        if received.len() == FRAME_BITS {
            Outcome::Done(decode(received))
        } else {
            Outcome::Pending(Exchange { stage: Stage::BitEdge, received })
        }
    }

    /// What follows a wait whose signal has come.
    pub open spec fn arrived<E>(self) -> Outcome<E> {
        match self.stage {
            Stage::AckLow => Outcome::Pending(Exchange { stage: Stage::AckHigh, ..self }),
            Stage::AckHigh => Outcome::Pending(Exchange { stage: Stage::DataLow, ..self }),
            Stage::DataLow => Outcome::Pending(Exchange { stage: Stage::BitEdge, ..self }),
            Stage::BitEdge => Outcome::Pending(Exchange { stage: Stage::BitWidth, ..self }),
            Stage::BitWidth => self.told(false),
            _ => Outcome::Pending(self),
        }
    }

    /// What a response makes of the exchange. One that does not answer the
    /// pending request leaves the exchange where it is.
    pub open spec fn next<E>(self, response: Response<E>) -> Outcome<E> {
        match response {
            Response::Written(written) => match (self.stage, written) {
                (Stage::Reset, Ok(_)) => Outcome::Pending(
                    Exchange { stage: Stage::ResetHold, ..self },
                ),
                (Stage::Release, Ok(_)) => Outcome::Pending(
                    Exchange { stage: Stage::AckLow, ..self },
                ),
                (Stage::Reset, Err(error)) | (Stage::Release, Err(error)) => Outcome::Done(
                    Err(DhtError::PinError(error)),
                ),
                _ => Outcome::Pending(self),
            },
            Response::Elapsed => if self.stage is ResetHold {
                Outcome::Pending(Exchange { stage: Stage::Release, ..self })
            } else {
                Outcome::Pending(self)
            },
            Response::Arrived(signal) => if self.stage.awaited() is Some || self.stage is BitWidth {
                match signal {
                    Ok(_) => self.arrived(),
                    Err(error) => Outcome::Done(Err(DhtError::PinError(error))),
                }
            } else {
                Outcome::Pending(self)
            },
            Response::Expired => if self.stage.awaited() is Some {
                Outcome::Done(Err(DhtError::Timeout))
            } else if self.stage is BitWidth {
                self.told(true)
            } else {
                Outcome::Pending(self)
            },
        }
    }

    /// What a sequence of responses, taken in order, makes of the exchange.
    /// Responses that come after its end count for nothing.
    pub open spec fn run<E>(self, trace: Seq<Response<E>>) -> Outcome<E>
        decreases trace.len(),
    {
        if trace.len() == 0 {
            Outcome::Pending(self)
        } else {
            match self.run(trace.drop_last()) {
                Outcome::Pending(at) => at.next(trace.last()),
                Outcome::Done(result) => Outcome::Done(result),
            }
        }
    }

    /// Whether the trace is one that a host can give which does what it is
    /// asked: each response answers the request pending when it comes, and
    /// none comes after the end of the exchange.
    pub open spec fn answered_by<E>(self, trace: Seq<Response<E>>) -> bool
        decreases trace.len(),
    {
        trace.len() == 0 || (self.answered_by(trace.drop_last()) && match self.run(
            trace.drop_last(),
        ) {
            Outcome::Pending(at) => trace.last().answers(at.request()),
            Outcome::Done(_) => false,
        })
    }

    /// The most responses that the exchange can still take before it is over.
    pub open spec fn budget(self) -> nat {
        let bits_left = (FRAME_BITS - self.received.len()) as nat;
        match self.stage {
            Stage::Reset => 6 + 2 * FRAME_BITS as nat,
            Stage::ResetHold => 5 + 2 * FRAME_BITS as nat,
            Stage::Release => 4 + 2 * FRAME_BITS as nat,
            Stage::AckLow => 3 + 2 * FRAME_BITS as nat,
            Stage::AckHigh => 2 + 2 * FRAME_BITS as nat,
            Stage::DataLow => 1 + 2 * FRAME_BITS as nat,
            Stage::BitEdge => 2 * bits_left,
            Stage::BitWidth => (2 * bits_left - 1) as nat,
        }
    }

    /// A response that answers the pending request ends the exchange or
    /// brings it strictly nearer to its end.
    pub proof fn lemma_next_advances<E>(self, response: Response<E>)
        requires
            self.wf(),
            response.answers(self.request()),
        ensures
            self.next(response) matches Outcome::Pending(at) ==> at.wf() && at.budget()
                < self.budget(),
    {
    }

    /// A response that does not answer the pending request changes nothing.
    pub proof fn lemma_next_ignores<E>(self, response: Response<E>)
        requires
            !response.answers(self.request()),
        ensures
            self.next(response) == Outcome::<E>::Pending(self),
    {
    }
}

} // verus!
