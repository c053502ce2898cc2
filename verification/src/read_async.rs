//! The edge-triggered exchange: the host sleeps until the line changes, and
//! every such sleep races a timer.
//!
//! The exchange is a state machine like the polled one, for hosts that can
//! suspend a task instead of sampling the line in a loop. It names the next
//! thing to await as a [`Request`] and takes which of the two came first,
//! the pin or the timer, as a [`Response`]. An error of the pin, in driving
//! the line or in waiting on it, ends the exchange.
//! [`Exchange`] is the mathematical model, [`Engine`] the value that runs.

use vstd::prelude::*;
use crate::error::DhtError;
use crate::frame::Frame;

pub mod laws;
pub mod model;

pub use model::{
    Exchange, Outcome, Request, Response, Signal, Stage, BIT_WINDOW_US, RESET_MS, TIMEOUT,
};

verus! {

/// An exchange under way.
#[derive(Clone, Copy, Debug)]
pub struct Engine {
    stage: Stage,
    frame: Frame,
}

/// What a response has made of an engine.
#[derive(Debug)]
pub enum Progress<E> {
    /// The exchange goes on with this engine.
    Pending(Engine),
    /// The exchange is over: the payload, or why there is none.
    Done(Result<[u8; 4], DhtError<E>>),
}

impl View for Engine {
    type V = Exchange;

    closed spec fn view(&self) -> Exchange {
        Exchange { stage: self.stage, received: self.frame@ }
    }
}

impl<E> View for Progress<E> {
    type V = Outcome<E>;

    open spec fn view(&self) -> Outcome<E> {
        match *self {
            Progress::Pending(engine) => Outcome::Pending(engine@),
            Progress::Done(result) => Outcome::Done(result),
        }
    }
}

impl Engine {
    #[verifier::type_invariant]
    spec fn inv(&self) -> bool {
        self@.wf()
    }

    /// An engine for one exchange.
    pub fn begin() -> (engine: Engine)
        ensures
            engine@ == Exchange::begin(),
    {
        Engine { stage: Stage::Reset, frame: Frame::new() }
    }

    /// What the host is to do next.
    pub fn request(&self) -> (request: Request)
        ensures
            request == self@.request(),
            self@.wf(),
    {
        proof {
            use_type_invariant(self);
        }
        match self.stage {
            Stage::Reset => Request::SetLow,
            Stage::ResetHold => Request::DelayMs(RESET_MS),
            Stage::Release => Request::SetHigh,
            Stage::AckLow | Stage::DataLow => Request::Await {
                signal: Signal::Low,
                timeout_ms: TIMEOUT,
            },
            Stage::AckHigh => Request::Await { signal: Signal::High, timeout_ms: TIMEOUT },
            Stage::BitEdge => Request::Await { signal: Signal::RisingEdge, timeout_ms: TIMEOUT },
            Stage::BitWidth => Request::Measure { window_us: BIT_WINDOW_US },
        }
    }

    fn told<E>(self, bit: bool) -> (progress: Progress<E>)
        requires
            self@.stage is BitWidth,
        ensures
            progress@ == self@.told::<E>(bit),
    {
        proof {
            use_type_invariant(&self);
        }
        let frame = self.frame.push(bit);
        if frame.is_complete() {
            Progress::Done(frame.finish())
        } else {
            Progress::Pending(Engine { stage: Stage::BitEdge, frame })
        }
    }

    fn arrived<E>(self) -> (progress: Progress<E>)
        ensures
            progress@ == self@.arrived::<E>(),
    {
        proof {
            use_type_invariant(&self);
        }
        match self.stage {
            Stage::AckLow => Progress::Pending(Engine { stage: Stage::AckHigh, ..self }),
            Stage::AckHigh => Progress::Pending(Engine { stage: Stage::DataLow, ..self }),
            Stage::DataLow => Progress::Pending(Engine { stage: Stage::BitEdge, ..self }),
            Stage::BitEdge => Progress::Pending(Engine { stage: Stage::BitWidth, ..self }),
            Stage::BitWidth => self.told(false),
            _ => Progress::Pending(self),
        }
    }

    /// Takes the response to the pending request and moves on.
    pub fn step<E>(self, response: Response<E>) -> (progress: Progress<E>)
        ensures
            progress@ == self@.next(response),
    {
        proof {
            use_type_invariant(&self);
        }
        match response {
            Response::Written(written) => match (self.stage, written) {
                (Stage::Reset, Ok(_)) => Progress::Pending(
                    Engine { stage: Stage::ResetHold, ..self },
                ),
                (Stage::Release, Ok(_)) => Progress::Pending(
                    Engine { stage: Stage::AckLow, ..self },
                ),
                (Stage::Reset, Err(error)) | (Stage::Release, Err(error)) => Progress::Done(
                    Err(DhtError::from(error)),
                ),
                _ => Progress::Pending(self),
            },
            Response::Elapsed => match self.stage {
                Stage::ResetHold => Progress::Pending(Engine { stage: Stage::Release, ..self }),
                _ => Progress::Pending(self),
            },
            Response::Arrived(signal) => match self.stage {
                Stage::Reset | Stage::ResetHold | Stage::Release => Progress::Pending(self),
                _ => match signal {
                    Ok(_) => self.arrived(),
                    Err(error) => Progress::Done(Err(DhtError::from(error))),
                },
            },
            Response::Expired => match self.stage {
                Stage::Reset | Stage::ResetHold | Stage::Release => Progress::Pending(self),
                Stage::BitWidth => self.told(true),
                _ => Progress::Done(Err(DhtError::Timeout)),
            },
        }
    }
}

} // verus!
