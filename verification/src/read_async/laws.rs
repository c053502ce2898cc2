//! What holds of every edge-triggered exchange: it is over within its
//! budget, the timer decides each of its waits, an error of the pin ends it,
//! and it yields what the sensor sent if and only if the checksum holds.

use vstd::prelude::*;
use crate::error::DhtError;
use crate::frame::{decode, FRAME_BITS};
use crate::read_async::model::{Exchange, Outcome, Response, Stage};

verus! {

/// The responses that open an exchange in which the sensor answers in time:
/// the line is pulled low, held and released, and the sensor is seen to pull
/// it low, let it go high and pull it low again.
pub open spec fn opening<E>() -> Seq<Response<E>> {
    seq![
        Response::Written(Ok(())),
        Response::Elapsed,
        Response::Written(Ok(())),
        Response::Arrived(Ok(())),
        Response::Arrived(Ok(())),
        Response::Arrived(Ok(())),
    ]
}

/// How the measuring of a bit's high pulse ends: for a one the window runs
/// out first, for a zero the line is low before that.
pub open spec fn width_of<E>(bit: bool) -> Response<E> {
    if bit {
        Response::Expired
    } else {
        Response::Arrived(Ok(()))
    }
}

/// The responses of a sensor that sends the bits one after the other: for
/// each the rising edge comes in time, and the high pulse has the width of
/// the bit.
pub open spec fn bits_sent<E>(bits: Seq<bool>) -> Seq<Response<E>>
    decreases bits.len(),
{
    if bits.len() == 0 {
        Seq::empty()
    } else {
        bits_sent::<E>(bits.drop_last()).push(Response::Arrived(Ok(()))).push(
            width_of(bits.last()),
        )
    }
}

impl Exchange {
    /// An exchange is over within the responses of its budget: a host that
    /// does what it is asked has given no more of them than the budget
    /// allowed, whatever the line did.
    pub proof fn lemma_over_within_budget<E>(self, trace: Seq<Response<E>>)
        requires
            self.wf(),
            self.answered_by(trace),
        ensures
            match self.run(trace) {
                Outcome::Pending(at) => at.wf() && trace.len() + at.budget() <= self.budget(),
                Outcome::Done(_) => trace.len() <= self.budget(),
            },
        decreases trace.len(),
    {
        if trace.len() > 0 {
            self.lemma_over_within_budget(trace.drop_last());
            if let Outcome::Pending(at) = self.run(trace.drop_last()) {
                at.lemma_next_advances(trace.last());
            }
        }
    }

    /// Every wait for a signal races the timer: if the timer wins the
    /// exchange ends in a timeout, and if the signal wins it goes on.
    pub proof fn lemma_timer_decides<E>(self)
        requires
            self.wf(),
            self.stage.awaited() is Some,
        ensures
            self.next::<E>(Response::Expired) == Outcome::<E>::Done(Err(DhtError::Timeout)),
            self.next::<E>(Response::Arrived(Ok(()))) is Pending,
    {
    }

    /// The width of a high pulse is the bit: if the window runs out before
    /// the line is low the exchange is told a one, else a zero.
    pub proof fn lemma_width_decides<E>(self)
        requires
            self.wf(),
            self.stage is BitWidth,
        ensures
            self.next::<E>(Response::Expired) == self.told::<E>(true),
            self.next::<E>(Response::Arrived(Ok(()))) == self.told::<E>(false),
    {
    }

    /// An error of the pin ends the exchange at once and is handed on as it
    /// is, whether the pin was driven or waited on.
    pub proof fn lemma_fault_ends_exchange<E>(self, response: Response<E>, error: E)
        requires
            self.wf(),
            response.answers(self.request()),
            response.fault() == Some(error),
        ensures
            self.next(response) == Outcome::<E>::Done(Err(DhtError::PinError(error))),
    {
    }

    /// No exchange ends with an error of the pin that the pin did not report.
    pub proof fn lemma_fault_comes_from_pin<E>(self, response: Response<E>, error: E)
        requires
            self.next(response) == Outcome::<E>::Done(Err(DhtError::PinError(error))),
        ensures
            response.fault() == Some(error),
    {
    }

    /// One more response at the end of a trace is one more step from where
    /// the trace leaves off.
    pub proof fn lemma_run_push<E>(self, trace: Seq<Response<E>>, response: Response<E>)
        ensures
            self.run(trace.push(response)) == match self.run(trace) {
                Outcome::Pending(at) => at.next(response),
                Outcome::Done(result) => Outcome::Done(result),
            },
    {
        assert(trace.push(response).drop_last() == trace);
    }

    /// Running a trace in two parts is running the second part from where
    /// the first part leaves off.
    pub proof fn lemma_run_append<E>(self, first: Seq<Response<E>>, second: Seq<Response<E>>)
        ensures
            self.run(first + second) == match self.run(first) {
                Outcome::Pending(at) => at.run(second),
                Outcome::Done(result) => Outcome::Done(result),
            },
        decreases second.len(),
    {
        if second.len() == 0 {
            assert(first + second == first);
        } else {
            assert(first + second == (first + second.drop_last()).push(second.last()));
            self.lemma_run_append(first, second.drop_last());
            self.lemma_run_push(first + second.drop_last(), second.last());
        }
    }

    /// The first `count` bits of a frame, sent to an exchange that waits for
    /// its first bit, are the bits that the exchange has been told.
    proof fn lemma_bits_sent<E>(self, bits: Seq<bool>, count: nat)
        requires
            self.stage is BitEdge,
            self.received.len() == 0,
            bits.len() == FRAME_BITS,
            count <= FRAME_BITS,
        ensures
            self.run(bits_sent::<E>(bits.take(count as int))) == if count == FRAME_BITS {
                Outcome::<E>::Done(decode(bits))
            } else {
                Outcome::<E>::Pending(Exchange { received: bits.take(count as int), ..self })
            },
        decreases count,
    {
        let sent = bits.take(count as int);
        if count == 0 {
            assert(self.received == sent);
        } else {
            let before = bits.take(count - 1);
            let edge = bits_sent::<E>(before).push(Response::Arrived(Ok(())));
            assert(sent.drop_last() == before);
            assert(before.push(bits[count - 1]) == sent);
            assert(bits.take(FRAME_BITS as int) == bits);
            self.lemma_bits_sent::<E>(bits, (count - 1) as nat);
            self.lemma_run_push(bits_sent::<E>(before), Response::Arrived(Ok(())));
            self.lemma_run_push(edge, width_of(sent.last()));
        }
    }

    /// A sensor that answers and sends forty bits in time: the exchange ends
    /// with what the bits decode to, the payload if their checksum holds and
    /// a checksum mismatch if it does not.
    pub proof fn lemma_sent_frame_is_decoded<E>(bits: Seq<bool>)
        requires
            bits.len() == FRAME_BITS,
        ensures
            Exchange::begin().run(opening::<E>() + bits_sent::<E>(bits)) == Outcome::<E>::Done(
                decode(bits),
            ),
    {
        let start = Exchange::begin();
        let none = Seq::<Response<E>>::empty();
        let one = none.push(Response::Written(Ok(())));
        let two = one.push(Response::Elapsed);
        let three = two.push(Response::Written(Ok(())));
        let four = three.push(Response::Arrived(Ok(())));
        let five = four.push(Response::Arrived(Ok(())));
        let six = five.push(Response::Arrived(Ok(())));
        start.lemma_run_push(none, Response::Written(Ok(())));
        start.lemma_run_push(one, Response::Elapsed);
        start.lemma_run_push(two, Response::Written(Ok(())));
        start.lemma_run_push(three, Response::Arrived(Ok(())));
        start.lemma_run_push(four, Response::Arrived(Ok(())));
        start.lemma_run_push(five, Response::Arrived(Ok(())));
        assert(six == opening::<E>());
        start.lemma_run_append(six, bits_sent::<E>(bits));
        assert(bits.take(FRAME_BITS as int) == bits);
        (Exchange { stage: Stage::BitEdge, ..start }).lemma_bits_sent::<E>(bits, FRAME_BITS as nat);
    }

    /// A payload comes only with the fortieth bit, out of a frame whose
    /// checksum holds.
    pub proof fn lemma_payload_needs_whole_frame<E>(self, response: Response<E>, data: [u8; 4])
        requires
            self.next(response) == Outcome::<E>::Done(Ok(data)),
        ensures
            self.stage is BitWidth,
            self.received.len() + 1 == FRAME_BITS,
            decode::<E>(self.received.push(response is Expired)) == Ok::<[u8; 4], DhtError<E>>(
                data,
            ),
    {
    }
}

} // verus!
