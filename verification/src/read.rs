//! The polled exchange: the host samples the line in a bounded busy-wait.
//!
//! The exchange is a state machine. It names the next thing to do on the line
//! as a [`Request`], takes what came of it as a [`Response`], and ends with the
//! payload or an error. [`Exchange`] is its mathematical model, [`Engine`] the
//! value that runs, and [`read_raw`] runs it on a pin and a timer.
//!
//! The budget of a wait is a number of samples, not a span of time: how long
//! a wait lasts depends on how exact the pauses of the timer are.

use vstd::prelude::*;
use crate::error::DhtError;
use crate::frame::Frame;
use crate::pin::{Delay, InputOutputPin};

pub mod laws;
pub mod model;

pub use model::{
    Exchange, Outcome, Request, Response, Stage, POLL_US, RELEASE_US, SAMPLE_US, TIMEOUT_US,
};

verus! {

/// An exchange under way.
#[derive(Clone, Copy, Debug)]
pub struct Engine {
    stage: Stage,
    reset_ms: u32,
    polls: u8,
    pausing: bool,
    frame: Frame,
}

/// What a response has made of an engine.
#[derive(Debug)]
pub enum Progress<E> {
    /// The exchange goes on with this engine.
    Pending(Engine),
    /// The exchange is over: the payload, or why there is none.
    Done(Result<[u8; 4], DhtError<E>>),
}

impl View for Engine {
    type V = Exchange;

    closed spec fn view(&self) -> Exchange {
        Exchange {
            stage: self.stage,
            reset_ms: self.reset_ms,
            polls: self.polls as nat,
            pausing: self.pausing,
            received: self.frame@,
        }
    }
}

impl<E> View for Progress<E> {
    type V = Outcome<E>;

    open spec fn view(&self) -> Outcome<E> {
        match *self {
            Progress::Pending(engine) => Outcome::Pending(engine@),
            Progress::Done(result) => Outcome::Done(result),
        }
    }
}

impl Engine {
    #[verifier::type_invariant]
    spec fn inv(&self) -> bool {
        self@.wf()
    }

    /// An engine for a whole exchange, which opens with a reset pulse of
    /// `reset_ms` milliseconds.
    pub fn begin(reset_ms: u32) -> (engine: Engine)
        ensures
            engine@ == Exchange::begin(reset_ms),
    {
        Engine { stage: Stage::Reset, reset_ms, polls: 0, pausing: false, frame: Frame::new() }
    }

    /// An engine for the part of an exchange that follows the reset pulse.
    pub fn released() -> (engine: Engine)
        ensures
            engine@ == Exchange::released(),
    {
        Engine { stage: Stage::Release, reset_ms: 0, polls: 0, pausing: false, frame: Frame::new() }
    }

    /// What the host is to do next.
    pub fn request(&self) -> (request: Request)
        ensures
            request == self@.request(),
            self@.wf(),
    {
        proof {
            use_type_invariant(self);
        }
        match self.stage {
            Stage::Reset => Request::SetLow,
            Stage::ResetHold => Request::DelayMs(self.reset_ms),
            Stage::Release => Request::SetHigh,
            Stage::Settle => Request::DelayUs(RELEASE_US),
            Stage::BitHold => Request::DelayUs(SAMPLE_US),
            Stage::BitSample => Request::IsHigh,
            Stage::AckHigh | Stage::BitHigh => if self.pausing {
                Request::DelayUs(POLL_US)
            } else {
                Request::IsHigh
            },
            Stage::AckLow | Stage::BitLow => if self.pausing {
                Request::DelayUs(POLL_US)
            } else {
                Request::IsLow
            },
        }
    }

    fn enter(self, stage: Stage) -> (engine: Engine)
        requires
            self@.enter(stage).wf(),
        ensures
            engine@ == self@.enter(stage),
    {
        Engine { stage, polls: 0, pausing: false, ..self }
    }

    fn arrived<E>(self) -> (progress: Progress<E>)
        requires
            self@.stage.is_wait(),
        ensures
            progress@ == self@.arrived::<E>(),
    {
        proof {
            use_type_invariant(&self);
        }
        match self.stage {
            Stage::AckHigh => Progress::Pending(self.enter(Stage::AckLow)),
            Stage::AckLow => Progress::Pending(self.enter(Stage::BitHigh)),
            Stage::BitHigh => Progress::Pending(self.enter(Stage::BitHold)),
            _ => if self.frame.is_complete() {
                Progress::Done(self.frame.finish())
            } else {
                Progress::Pending(self.enter(Stage::BitHigh))
            },
        }
    }

    /// Takes the response to the pending request and moves on.
    pub fn step<E>(self, response: Response<E>) -> (progress: Progress<E>)
        ensures
            progress@ == self@.next(response),
    {
        proof {
            use_type_invariant(&self);
            if response.answers(self@.request()) {
                self@.lemma_next_advances(response);
            }
        }
        match response {
            Response::Written(written) => match (self.stage, written) {
                (Stage::Reset, Ok(_)) => Progress::Pending(self.enter(Stage::ResetHold)),
                (Stage::Release, Ok(_)) => Progress::Pending(self.enter(Stage::Settle)),
                (Stage::Reset, Err(error)) | (Stage::Release, Err(error)) => Progress::Done(
                    Err(DhtError::from(error)),
                ),
                _ => Progress::Pending(self),
            },
            Response::Elapsed => match self.stage {
                Stage::ResetHold => Progress::Pending(self.enter(Stage::Release)),
                Stage::Settle => Progress::Pending(self.enter(Stage::AckHigh)),
                Stage::BitHold => Progress::Pending(self.enter(Stage::BitSample)),
                Stage::Reset | Stage::Release | Stage::BitSample => Progress::Pending(self),
                _ => if self.pausing {
                    if self.polls >= TIMEOUT_US {
                        Progress::Done(Err(DhtError::Timeout))
                    } else {
                        Progress::Pending(Engine { pausing: false, ..self })
                    }
                } else {
                    Progress::Pending(self)
                },
            },
            Response::Level(level) => match self.stage {
                Stage::BitSample => match level {
                    Ok(bit) => Progress::Pending(
                        Engine { stage: Stage::BitLow, frame: self.frame.push(bit), ..self },
                    ),
                    Err(error) => Progress::Done(Err(DhtError::from(error))),
                },
                Stage::AckHigh | Stage::AckLow | Stage::BitHigh | Stage::BitLow => if self.pausing {
                    Progress::Pending(self)
                } else {
                    match level {
                        Ok(true) => self.arrived(),
                        Ok(false) => Progress::Pending(
                            Engine { polls: self.polls + 1, pausing: true, ..self },
                        ),
                        Err(error) => Progress::Done(Err(DhtError::from(error))),
                    }
                },
                _ => Progress::Pending(self),
            },
        }
    }
}

/// Carries out one request on the hardware and reports what came of it.
pub fn perform<E, D: Delay, P: InputOutputPin<E>>(
    request: Request,
    delay: &mut D,
    pin: &mut P,
) -> (response: Response<E>)
    ensures
        response.answers(request),
{
    match request {
        Request::SetLow => Response::Written(pin.set_low()),
        Request::SetHigh => Response::Written(pin.set_high()),
        Request::DelayMs(ms) => {
            delay.delay_ms(ms);
            Response::Elapsed
        },
        Request::DelayUs(us) => {
            delay.delay_us(us);
            Response::Elapsed
        },
        Request::IsHigh => Response::Level(pin.is_high()),
        Request::IsLow => Response::Level(pin.is_low()),
    }
}

/// Runs an exchange to its end on the hardware: carries out each request and
/// hands the response to the engine, until the engine is done.
///
/// What the pin answers is not known beforehand, so the contract speaks of
/// the responses there can have been: the result is what the model makes of
/// some sequence of responses, each answering the request that was pending
/// when it came.
pub fn drive<E, D: Delay, P: InputOutputPin<E>>(
    engine: Engine,
    delay: &mut D,
    pin: &mut P,
) -> (result: Result<[u8; 4], DhtError<E>>)
    ensures
        exists|trace: Seq<Response<E>>|
            engine@.answered_by(trace) && #[trigger] engine@.run(trace) == Outcome::Done(result),
{
    let mut current = engine;
    let ghost mut trace: Seq<Response<E>> = Seq::empty();
    loop
        invariant
            engine@.answered_by(trace),
            engine@.run(trace) == Outcome::<E>::Pending(current@),
        decreases current@.budget(),
    {
        let request = current.request();
        let response = perform(request, delay, pin);
        proof {
            current@.lemma_next_advances(response);
            engine@.lemma_one_more_answer(trace, current@, response);
            trace = trace.push(response);
        }
        match current.step(response) {
            Progress::Pending(next) => {
                current = next;
            },
            Progress::Done(result) => {
                return result;
            },
        }
    }
}

/// Reads the four payload bytes from a sensor whose reset pulse the caller
/// has just held: releases the line, awaits the sensor's answer, collects the
/// forty bits and checks their checksum.
///
/// The result is what the model makes of some sequence of responses, each
/// answering the request that was pending when it came.
pub fn read_raw<E, D: Delay, P: InputOutputPin<E>>(
    delay: &mut D,
    pin: &mut P,
) -> (result: Result<[u8; 4], DhtError<E>>)
    ensures
        exists|trace: Seq<Response<E>>|
            Exchange::released().answered_by(trace) && #[trigger] Exchange::released().run(trace)
                == Outcome::Done(result),
{
    drive(Engine::released(), delay, pin)
}

} // verus!
