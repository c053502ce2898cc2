//! The polled exchange as a state machine: what it asks of the host, what it
//! takes back, and where each response leads.

use vstd::prelude::*;
use crate::error::DhtError;
use crate::frame::{decode, FRAME_BITS};

verus! {

/// How often a bounded wait samples the line before it gives up.
pub const TIMEOUT_US: u8 = 100;

/// The pause after a sample that did not show the awaited level, in microseconds.
pub const POLL_US: u32 = 1;

/// How long the released line is left alone before the answer is awaited, in microseconds.
pub const RELEASE_US: u32 = 48;

/// How long after its rising edge a bit is sampled, in microseconds.
pub const SAMPLE_US: u32 = 35;

/// What the host is to do next on the line.
#[derive(Clone, Copy, Debug, PartialEq, Eq)]
pub enum Request {
    /// Drive the line low.
    SetLow,
    /// Release the line.
    SetHigh,
    /// Pause for this many milliseconds.
    DelayMs(u32),
    /// Pause for this many microseconds.
    DelayUs(u32),
    /// Ask whether the line is high.
    IsHigh,
    /// Ask whether the line is low.
    IsLow,
}

/// What came of a request.
#[derive(Debug)]
pub enum Response<E> {
    /// The line was driven, or the pin refused.
    Written(Result<(), E>),
    /// The pause is over.
    Elapsed,
    /// The answer to a question about the level, or the pin's refusal.
    Level(Result<bool, E>),
}

impl<E> Response<E> {
    /// The error of the pin that the response carries, if it carries one.
    pub open spec fn fault(self) -> Option<E> {
        match self {
            Response::Written(Err(error)) | Response::Level(Err(error)) => Some(error),
            _ => None,
        }
    }

    /// Whether this is the kind of response that the request calls for.
    pub open spec fn answers(self, request: Request) -> bool {
        match request {
            Request::SetLow | Request::SetHigh => self is Written,
            Request::DelayMs(_) | Request::DelayUs(_) => self is Elapsed,
            Request::IsHigh | Request::IsLow => self is Level,
        }
    }
}

/// Where an exchange stands.
#[derive(Clone, Copy, Debug, PartialEq, Eq)]
pub enum Stage {
    /// The host is about to pull the line low.
    Reset,
    /// The host holds the line low.
    ResetHold,
    /// The host is about to release the line.
    Release,
    /// The released line settles.
    Settle,
    /// Waiting for the line to go high before the sensor answers.
    AckHigh,
    /// Waiting for the sensor to pull the line low.
    AckLow,
    /// Waiting for the high pulse of the next bit.
    BitHigh,
    /// Letting the high pulse run up to the sampling point.
    BitHold,
    /// Sampling the line: still high is a one, low again is a zero.
    BitSample,
    /// Waiting for the line to be low again after a bit.
    BitLow,
}

impl Stage {
    /// Whether the stage is a bounded wait for a level.
    pub open spec fn is_wait(self) -> bool {
        self is AckHigh || self is AckLow || self is BitHigh || self is BitLow
    }
}

/// The model of an exchange: its stage, the progress of the wait it may be
/// in, and the bits sampled so far.
pub struct Exchange {
    /// Where the exchange stands.
    pub stage: Stage,
    /// For how many milliseconds the line is held low at the start.
    pub reset_ms: u32,
    /// How many samples of the current wait did not show the awaited level.
    pub polls: nat,
    /// Whether the pause after such a sample is still to come.
    pub pausing: bool,
    /// The bits sampled so far, in the order of arrival.
    pub received: Seq<bool>,
}

/// What an exchange has come to: it goes on, or it is over.
pub enum Outcome<E> {
    /// The exchange goes on from here.
    Pending(Exchange),
    /// The exchange is over: the payload, or why there is none.
    Done(Result<[u8; 4], DhtError<E>>),
}

impl Exchange {
    /// An exchange about to begin with the reset pulse.
    pub open spec fn begin(reset_ms: u32) -> Exchange {
        Exchange { stage: Stage::Reset, reset_ms, polls: 0, pausing: false, received: Seq::empty() }
    }

    /// An exchange whose reset pulse the host has already held.
    pub open spec fn released() -> Exchange {
        Exchange {
            stage: Stage::Release,
            reset_ms: 0,
            polls: 0,
            pausing: false,
            received: Seq::empty(),
        }
    }

    /// The states that an exchange can be in.
    pub open spec fn wf(self) -> bool {
        let waiting = if self.pausing {
            1 <= self.polls <= TIMEOUT_US
        } else {
            self.polls < TIMEOUT_US
        };
        let idle = self.polls == 0 && !self.pausing;
        match self.stage {
            Stage::Reset | Stage::ResetHold | Stage::Release | Stage::Settle => idle
                && self.received.len() == 0,
            Stage::AckHigh | Stage::AckLow => waiting && self.received.len() == 0,
            Stage::BitHigh => waiting && self.received.len() < FRAME_BITS,
            Stage::BitHold | Stage::BitSample => idle && self.received.len() < FRAME_BITS,
            Stage::BitLow => waiting && 1 <= self.received.len() <= FRAME_BITS,
        }
    }

    /// The same exchange at the start of another stage.
    pub open spec fn enter(self, stage: Stage) -> Exchange {
        Exchange { stage, polls: 0, pausing: false, ..self }
    }

    /// What the host is to do next.
    pub open spec fn request(self) -> Request {
        match self.stage {
            Stage::Reset => Request::SetLow,
            Stage::ResetHold => Request::DelayMs(self.reset_ms),
            Stage::Release => Request::SetHigh,
            Stage::Settle => Request::DelayUs(RELEASE_US),
            Stage::BitHold => Request::DelayUs(SAMPLE_US),
            Stage::BitSample => Request::IsHigh,
            Stage::AckHigh | Stage::BitHigh => if self.pausing {
                Request::DelayUs(POLL_US)
            } else {
                Request::IsHigh
            },
            Stage::AckLow | Stage::BitLow => if self.pausing {
                Request::DelayUs(POLL_US)
            } else {
                Request::IsLow
            },
        }
    }

    /// What follows a wait whose level has shown.
    pub open spec fn arrived<E>(self) -> Outcome<E> {
        match self.stage {
            Stage::AckHigh => Outcome::Pending(self.enter(Stage::AckLow)),
            Stage::AckLow => Outcome::Pending(self.enter(Stage::BitHigh)),
            Stage::BitHigh => Outcome::Pending(self.enter(Stage::BitHold)),
            _ => if self.received.len() == FRAME_BITS {
                Outcome::Done(decode(self.received))
            } else {
                Outcome::Pending(self.enter(Stage::BitHigh))
            },
        }
    }

    /// What a response makes of the exchange. One that does not answer the
    /// pending request leaves the exchange where it is.
    pub open spec fn next<E>(self, response: Response<E>) -> Outcome<E> {
        match response {
            Response::Written(written) => match (self.stage, written) {
                (Stage::Reset, Ok(_)) => Outcome::Pending(self.enter(Stage::ResetHold)),
                (Stage::Release, Ok(_)) => Outcome::Pending(self.enter(Stage::Settle)),
                (Stage::Reset, Err(error)) | (Stage::Release, Err(error)) => Outcome::Done(
                    Err(DhtError::PinError(error)),
                ),
                _ => Outcome::Pending(self),
            },
            Response::Elapsed => match self.stage {
                Stage::ResetHold => Outcome::Pending(self.enter(Stage::Release)),
                Stage::Settle => Outcome::Pending(self.enter(Stage::AckHigh)),
                Stage::BitHold => Outcome::Pending(self.enter(Stage::BitSample)),
                _ => if self.stage.is_wait() && self.pausing {
                    if self.polls >= TIMEOUT_US {
                        Outcome::Done(Err(DhtError::Timeout))
                    } else {
                        Outcome::Pending(Exchange { pausing: false, ..self })
                    }
                } else {
                    Outcome::Pending(self)
                },
            },
            Response::Level(level) => if self.stage is BitSample {
                match level {
                    Ok(bit) => Outcome::Pending(
                        Exchange { received: self.received.push(bit), ..self.enter(Stage::BitLow) },
                    ),
                    Err(error) => Outcome::Done(Err(DhtError::PinError(error))),
                }
            } else if self.stage.is_wait() && !self.pausing {
                match level {
                    Ok(true) => self.arrived(),
                    Ok(false) => Outcome::Pending(
                        Exchange { polls: self.polls + 1, pausing: true, ..self },
                    ),
                    Err(error) => Outcome::Done(Err(DhtError::PinError(error))),
                }
            } else {
                Outcome::Pending(self)
            },
        }
    }

    /// What a sequence of responses, taken in order, makes of the exchange.
    /// Responses that come after its end count for nothing.
    pub open spec fn run<E>(self, trace: Seq<Response<E>>) -> Outcome<E>
        decreases trace.len(),
    {
        if trace.len() == 0 {
            Outcome::Pending(self)
        } else {
            match self.run(trace.drop_last()) {
                Outcome::Pending(at) => at.next(trace.last()),
                Outcome::Done(result) => Outcome::Done(result),
            }
        }
    }

    /// Whether the trace is one that a host can give which does what it is
    /// asked: each response answers the request pending when it comes, and
    /// none comes after the end of the exchange.
    pub open spec fn answered_by<E>(self, trace: Seq<Response<E>>) -> bool
        decreases trace.len(),
    {
        trace.len() == 0 || (self.answered_by(trace.drop_last()) && match self.run(
            trace.drop_last(),
        ) {
            Outcome::Pending(at) => trace.last().answers(at.request()),
            Outcome::Done(_) => false,
        })
    }
}

/// The most responses that one bounded wait can take: a sample and a pause
/// for each poll.
pub open spec fn wait_budget() -> nat {
    2 * TIMEOUT_US as nat
}

/// The most responses that `bits` whole bits can take: for each bit two
/// waits, the pause before the sample and the sample.
pub open spec fn bits_budget(bits: nat) -> nat {
    bits * (2 * wait_budget() + 2)
}

proof fn lemma_bits_budget(bits: nat)
    ensures
        bits_budget(bits + 1) == bits_budget(bits) + 2 * wait_budget() + 2,
{
    assert((bits + 1) * (2 * wait_budget() + 2) == bits * (2 * wait_budget() + 2) + (2
        * wait_budget() + 2)) by (nonlinear_arith);
}

impl Exchange {
    /// The most responses that the wait under way can still take.
    pub open spec fn wait_left(self) -> nat {
        if self.pausing {
            (2 * (TIMEOUT_US - self.polls) + 1) as nat
        } else {
            (2 * (TIMEOUT_US - self.polls)) as nat
        }
    }

    /// The most responses that the exchange can still take before it is over.
    pub open spec fn budget(self) -> nat {
        let bits_left = (FRAME_BITS - self.received.len()) as nat;
        let later_bits = (bits_left - 1) as nat;
        match self.stage {
            Stage::Reset => 4 + 2 * wait_budget() + bits_budget(bits_left),
            Stage::ResetHold => 3 + 2 * wait_budget() + bits_budget(bits_left),
            Stage::Release => 2 + 2 * wait_budget() + bits_budget(bits_left),
            Stage::Settle => 1 + 2 * wait_budget() + bits_budget(bits_left),
            Stage::AckHigh => self.wait_left() + wait_budget() + bits_budget(bits_left),
            Stage::AckLow => self.wait_left() + bits_budget(bits_left),
            Stage::BitHigh => self.wait_left() + 2 + wait_budget() + bits_budget(later_bits),
            Stage::BitHold => 2 + wait_budget() + bits_budget(later_bits),
            Stage::BitSample => 1 + wait_budget() + bits_budget(later_bits),
            Stage::BitLow => self.wait_left() + bits_budget(bits_left),
        }
    }

    /// A response that answers the pending request ends the exchange or
    /// brings it strictly nearer to its end.
    pub proof fn lemma_next_advances<E>(self, response: Response<E>)
        requires
            self.wf(),
            response.answers(self.request()),
        ensures
            self.next(response) matches Outcome::Pending(at) ==> at.wf() && at.budget()
                < self.budget(),
    {
        if self.received.len() < FRAME_BITS {
            lemma_bits_budget((FRAME_BITS - self.received.len() - 1) as nat);
        }
    }

    /// A response that does not answer the pending request changes nothing.
    pub proof fn lemma_next_ignores<E>(self, response: Response<E>)
        requires
            !response.answers(self.request()),
        ensures
            self.next(response) == Outcome::<E>::Pending(self),
    {
    }
}

} // verus!
