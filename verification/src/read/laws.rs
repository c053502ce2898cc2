//! What holds of every polled exchange: it is over within its budget, its
//! waits give up after exactly their budget of samples, an error of the pin
//! ends it, and it yields what the sensor sent if and only if the checksum
//! holds. The laws on whole runs are stated both for an exchange that begins
//! with the reset pulse and for one that begins with the release.

use vstd::prelude::*;
use crate::error::DhtError;
use crate::frame::{decode, FRAME_BITS};
use crate::read::model::{
    bits_budget, wait_budget, Exchange, Outcome, Response, Stage, TIMEOUT_US,
};

verus! {

/// The responses of a line that fails to show the awaited level in each of
/// `rounds` samples: every sample is followed by its pause.
pub open spec fn stalled<E>(rounds: nat) -> Seq<Response<E>>
    decreases rounds,
{
    if rounds == 0 {
        Seq::empty()
    } else {
        stalled::<E>((rounds - 1) as nat).push(Response::Level(Ok(false))).push(Response::Elapsed)
    }
}

/// The responses of the reset pulse: the pin pulls the line low, and the
/// pause that holds it there passes.
pub open spec fn reset_pulse<E>() -> Seq<Response<E>> {
    seq![Response::Written(Ok(())), Response::Elapsed]
}

/// The responses of the release: the pin lets the line go, and the pause
/// that leaves it to settle passes.
pub open spec fn settling<E>() -> Seq<Response<E>> {
    seq![Response::Written(Ok(())), Response::Elapsed]
}

/// The responses that open a whole exchange up to its first wait: the reset
/// pulse and the release.
pub open spec fn opening<E>() -> Seq<Response<E>> {
    reset_pulse::<E>() + settling::<E>()
}

/// The responses of a wait that is answered in time: `rounds` samples miss
/// the awaited level, and the next one shows it.
pub open spec fn waited<E>(rounds: nat) -> Seq<Response<E>> {
    stalled::<E>(rounds).push(Response::Level(Ok(true)))
}

/// The responses of a sensor that acknowledges in time: the line is seen
/// high after `high` missed samples, then low after `low` missed samples.
pub open spec fn acknowledged<E>(high: nat, low: nat) -> Seq<Response<E>> {
    waited::<E>(high) + waited::<E>(low)
}

/// The responses of a sensor that sends one bit in time: the line is seen
/// high after `rise` missed samples, the pause before the sample passes, the
/// sample shows the bit, and the line is seen low after `fall` missed samples.
pub open spec fn bit_sent<E>(bit: bool, rise: nat, fall: nat) -> Seq<Response<E>> {
    waited::<E>(rise).push(Response::Elapsed).push(Response::Level(Ok(bit))) + waited::<E>(fall)
}

/// The responses of a sensor that sends the bits one after the other. The
/// waits of bit `i` miss `delays[2 * i]` and `delays[2 * i + 1]` samples.
pub open spec fn bits_sent<E>(bits: Seq<bool>, delays: Seq<nat>) -> Seq<Response<E>>
    decreases bits.len(),
{
    if bits.len() == 0 {
        Seq::empty()
    } else {
        let i = bits.len() - 1;
        bits_sent::<E>(bits.drop_last(), delays) + bit_sent::<E>(
            bits.last(),
            delays[2 * i],
            delays[2 * i + 1],
        )
    }
}

/// Whether every wait of a frame is answered in time: none of its delays
/// uses up the budget of a wait.
pub open spec fn in_time(delays: Seq<nat>) -> bool {
    &&& delays.len() == 2 * FRAME_BITS
    &&& forall|i: int| 0 <= i < delays.len() ==> delays[i] < TIMEOUT_US
}

impl Exchange {
    /// A host that has done what it was asked and now answers the pending
    /// request has still done what it was asked, and the exchange has taken
    /// one more step.
    pub proof fn lemma_one_more_answer<E>(
        self,
        trace: Seq<Response<E>>,
        at: Exchange,
        response: Response<E>,
    )
        requires
            self.answered_by(trace),
            self.run(trace) == Outcome::<E>::Pending(at),
            response.answers(at.request()),
        ensures
            self.answered_by(trace.push(response)),
            self.run(trace.push(response)) == at.next(response),
    {
        assert(trace.push(response).drop_last() == trace);
    }

    /// One more response at the end of a trace is one more step from where
    /// the trace leaves off.
    pub proof fn lemma_run_push<E>(self, trace: Seq<Response<E>>, response: Response<E>)
        ensures
            self.run(trace.push(response)) == match self.run(trace) {
                Outcome::Pending(at) => at.next(response),
                Outcome::Done(result) => Outcome::Done(result),
            },
    {
        assert(trace.push(response).drop_last() == trace);
    }

    /// Running a trace in two parts is running the second part from where
    /// the first part leaves off.
    pub proof fn lemma_run_append<E>(self, first: Seq<Response<E>>, second: Seq<Response<E>>)
        ensures
            self.run(first + second) == match self.run(first) {
                Outcome::Pending(at) => at.run(second),
                Outcome::Done(result) => Outcome::Done(result),
            },
        decreases second.len(),
    {
        if second.len() == 0 {
            assert(first + second == first);
        } else {
            assert(first + second == (first + second.drop_last()).push(second.last()));
            self.lemma_run_append(first, second.drop_last());
            self.lemma_run_push(first + second.drop_last(), second.last());
        }
    }

    /// An exchange is over within the responses of its budget: a host that
    /// does what it is asked has given no more of them than the budget
    /// allowed, whatever the line did.
    pub proof fn lemma_over_within_budget<E>(self, trace: Seq<Response<E>>)
        requires
            self.wf(),
            self.answered_by(trace),
        ensures
            match self.run(trace) {
                Outcome::Pending(at) => at.wf() && trace.len() + at.budget() <= self.budget(),
                Outcome::Done(_) => trace.len() <= self.budget(),
            },
        decreases trace.len(),
    {
        if trace.len() > 0 {
            self.lemma_over_within_budget(trace.drop_last());
            if let Outcome::Pending(at) = self.run(trace.drop_last()) {
                at.lemma_next_advances(trace.last());
            }
        }
    }

    /// The budgets in numbers: a wait takes 100 samples and 100 pauses at
    /// most, an exchange from the release on 16482 responses, and a whole
    /// exchange 16484.
    pub proof fn lemma_budget_in_numbers(reset_ms: u32)
        ensures
            wait_budget() == 200,
            Exchange::released().budget() == 16482,
            Exchange::begin(reset_ms).budget() == 16484,
    {
        assert(bits_budget(40) == 16080) by (nonlinear_arith)
            requires
                bits_budget(40) == 40 * (2 * wait_budget() + 2),
                wait_budget() == 200,
        ;
    }

    /// A bounded wait gives up after exactly `TIMEOUT_US` samples: while fewer
    /// samples have failed to show the awaited level the wait goes on, and
    /// with that many it ends in a timeout.
    pub proof fn lemma_wait_times_out<E>(self, rounds: nat)
        requires
            self.wf(),
            self.stage.is_wait(),
            self.polls == 0,
            !self.pausing,
            rounds <= TIMEOUT_US,
        ensures
            rounds < TIMEOUT_US ==> self.run(stalled::<E>(rounds)) == Outcome::<E>::Pending(
                Exchange { polls: rounds, ..self },
            ),
            rounds == TIMEOUT_US ==> self.run(stalled::<E>(rounds)) == Outcome::<E>::Done(
                Err(DhtError::Timeout),
            ),
        decreases rounds,
    {
        if rounds > 0 {
            let before = stalled::<E>((rounds - 1) as nat);
            self.lemma_wait_times_out::<E>((rounds - 1) as nat);
            self.lemma_run_push(before, Response::Level(Ok(false)));
            self.lemma_run_push(before.push(Response::Level(Ok(false))), Response::Elapsed);
        }
    }

    /// A bounded wait is answered by any of its `TIMEOUT_US` samples, the
    /// last one too: once a sample shows the awaited level, the exchange
    /// moves on as if no sample had missed it.
    pub proof fn lemma_wait_is_answered<E>(self, rounds: nat)
        requires
            self.wf(),
            self.stage.is_wait(),
            self.polls == 0,
            !self.pausing,
            rounds < TIMEOUT_US,
        ensures
            self.run(waited::<E>(rounds)) == self.arrived::<E>(),
    {
        self.lemma_wait_times_out::<E>(rounds);
        self.lemma_run_push(stalled::<E>(rounds), Response::Level(Ok(true)));
    }

    /// An error of the pin ends the exchange at once and is handed on as it
    /// is, whether the pin was written or read.
    pub proof fn lemma_fault_ends_exchange<E>(self, response: Response<E>, error: E)
        requires
            self.wf(),
            response.answers(self.request()),
            response.fault() == Some(error),
        ensures
            self.next(response) == Outcome::<E>::Done(Err(DhtError::PinError(error))),
    {
    }

    /// A pin that fails to release the line ends the exchange with its
    /// error, be it an exchange that began with the release or a whole one
    /// whose reset pulse went well.
    pub proof fn lemma_failed_release_is_reported<E>(reset_ms: u32, error: E)
        ensures
            Exchange::released().run(seq![Response::Written(Err(error))]) == Outcome::<E>::Done(
                Err(DhtError::PinError(error)),
            ),
            Exchange::begin(reset_ms).run(reset_pulse::<E>().push(Response::Written(Err(error))))
                == Outcome::<E>::Done(Err(DhtError::PinError(error))),
    {
        let failed = Response::Written(Err(error));
        Exchange::released().lemma_run_push(Seq::empty(), failed);
        assert(Seq::<Response<E>>::empty().push(failed) == seq![failed]);
        Exchange::lemma_reset_pulse::<E>(reset_ms);
        Exchange::begin(reset_ms).lemma_run_push(reset_pulse::<E>(), failed);
    }

    /// A pin that fails to pull the line low ends the exchange with its
    /// error before anything else is done.
    pub proof fn lemma_failed_reset_is_reported<E>(reset_ms: u32, error: E)
        ensures
            Exchange::begin(reset_ms).run(seq![Response::Written(Err(error))]) == Outcome::<E>::Done(
                Err(DhtError::PinError(error)),
            ),
    {
        let failed = Response::Written(Err(error));
        Exchange::begin(reset_ms).lemma_run_push(Seq::empty(), failed);
        assert(Seq::<Response<E>>::empty().push(failed) == seq![failed]);
    }

    /// No exchange ends with an error of the pin that the pin did not report.
    pub proof fn lemma_fault_comes_from_pin<E>(self, response: Response<E>, error: E)
        requires
            self.next(response) == Outcome::<E>::Done(Err(DhtError::PinError(error))),
        ensures
            response.fault() == Some(error),
    {
    }

    /// The reset pulse brings a whole exchange to the release.
    pub proof fn lemma_reset_pulse<E>(reset_ms: u32)
        ensures
            Exchange::begin(reset_ms).run(reset_pulse::<E>()) == Outcome::<E>::Pending(
                Exchange::begin(reset_ms).enter(Stage::Release),
            ),
    {
        let start = Exchange::begin(reset_ms);
        let none = Seq::<Response<E>>::empty();
        let pulled = none.push(Response::Written(Ok(())));
        start.lemma_run_push(none, Response::Written(Ok(())));
        start.lemma_run_push(pulled, Response::Elapsed);
        assert(pulled.push(Response::Elapsed) == reset_pulse::<E>());
    }

    /// The release brings an exchange to its first wait, the one for the
    /// line to go high.
    pub proof fn lemma_settled<E>(self)
        requires
            self.wf(),
            self.stage is Release,
        ensures
            self.run(settling::<E>()) == Outcome::<E>::Pending(self.enter(Stage::AckHigh)),
    {
        let none = Seq::<Response<E>>::empty();
        let let_go = none.push(Response::Written(Ok(())));
        self.lemma_run_push(none, Response::Written(Ok(())));
        self.lemma_run_push(let_go, Response::Elapsed);
        assert(let_go.push(Response::Elapsed) == settling::<E>());
    }

    /// What a whole exchange comes to is what its reset pulse, then the rest
    /// of the responses from the release on, come to.
    pub proof fn lemma_after_reset<E>(reset_ms: u32, rest: Seq<Response<E>>)
        ensures
            Exchange::begin(reset_ms).run(opening::<E>() + rest) == Exchange::begin(reset_ms).enter(
                Stage::Release,
            ).run(settling::<E>() + rest),
    {
        let start = Exchange::begin(reset_ms);
        Exchange::lemma_reset_pulse::<E>(reset_ms);
        assert(opening::<E>() + rest == reset_pulse::<E>() + (settling::<E>() + rest));
        start.lemma_run_append(reset_pulse::<E>(), settling::<E>() + rest);
    }

    /// A sensor that never answers an exchange that stands at the release,
    /// as `Exchange::released()` does: the line settles, is sampled
    /// `TIMEOUT_US` times without being seen high, and the exchange ends in
    /// a timeout, no sooner and no later.
    pub proof fn lemma_silent_sensor_times_out<E>(self, rounds: nat)
        requires
            self.wf(),
            self.stage is Release,
            rounds <= TIMEOUT_US,
        ensures
            rounds < TIMEOUT_US ==> self.run(settling::<E>() + stalled::<E>(rounds)) is Pending,
            rounds == TIMEOUT_US ==> self.run(settling::<E>() + stalled::<E>(rounds))
                == Outcome::<E>::Done(Err(DhtError::Timeout)),
    {
        self.lemma_settled::<E>();
        self.lemma_run_append(settling::<E>(), stalled::<E>(rounds));
        self.enter(Stage::AckHigh).lemma_wait_times_out::<E>(rounds);
    }

    /// A sensor that never answers a whole exchange: after the reset pulse
    /// and the release the line is sampled `TIMEOUT_US` times without being
    /// seen high, and the exchange ends in a timeout, no sooner and no later.
    pub proof fn lemma_silent_sensor_times_out_after_reset<E>(reset_ms: u32, rounds: nat)
        requires
            rounds <= TIMEOUT_US,
        ensures
            rounds < TIMEOUT_US ==> Exchange::begin(reset_ms).run(
                opening::<E>() + stalled::<E>(rounds),
            ) is Pending,
            rounds == TIMEOUT_US ==> Exchange::begin(reset_ms).run(
                opening::<E>() + stalled::<E>(rounds),
            ) == Outcome::<E>::Done(Err(DhtError::Timeout)),
    {
        Exchange::lemma_after_reset::<E>(reset_ms, stalled::<E>(rounds));
        Exchange::begin(reset_ms).enter(Stage::Release).lemma_silent_sensor_times_out::<E>(rounds);
    }

    /// One bit sent in time brings an exchange that waits for a bit to the
    /// next bit, or to its end if the bit was the fortieth.
    pub proof fn lemma_bit_sent<E>(self, bit: bool, rise: nat, fall: nat)
        requires
            self.wf(),
            self.stage is BitHigh,
            self.polls == 0,
            !self.pausing,
            rise < TIMEOUT_US,
            fall < TIMEOUT_US,
        ensures
            self.run(bit_sent::<E>(bit, rise, fall)) == if self.received.len() + 1 == FRAME_BITS {
                Outcome::<E>::Done(decode(self.received.push(bit)))
            } else {
                Outcome::<E>::Pending(Exchange { received: self.received.push(bit), ..self })
            },
    {
        let risen = waited::<E>(rise);
        let held = risen.push(Response::Elapsed);
        let sampled = held.push(Response::Level(Ok(bit)));
        let low = Exchange { received: self.received.push(bit), ..self.enter(Stage::BitLow) };
        self.lemma_wait_is_answered::<E>(rise);
        self.lemma_run_push(risen, Response::Elapsed);
        self.lemma_run_push(held, Response::Level(Ok(bit)));
        self.lemma_run_append(sampled, waited::<E>(fall));
        low.lemma_wait_is_answered::<E>(fall);
    }

    /// The first `count` bits of a frame, sent in time to an exchange that
    /// waits for its first bit, are the bits that the exchange has received.
    proof fn lemma_bits_sent<E>(self, bits: Seq<bool>, delays: Seq<nat>, count: nat)
        requires
            self.wf(),
            self.stage is BitHigh,
            self.polls == 0,
            !self.pausing,
            self.received.len() == 0,
            bits.len() == FRAME_BITS,
            in_time(delays),
            count <= FRAME_BITS,
        ensures
            self.run(bits_sent::<E>(bits.take(count as int), delays)) == if count == FRAME_BITS {
                Outcome::<E>::Done(decode(bits))
            } else {
                Outcome::<E>::Pending(Exchange { received: bits.take(count as int), ..self })
            },
        decreases count,
    {
        let sent = bits.take(count as int);
        if count == 0 {
            assert(self.received == sent);
        } else {
            let before = bits.take(count - 1);
            let rise = delays[2 * (count - 1)];
            let fall = delays[2 * (count - 1) + 1];
            assert(sent.drop_last() == before);
            assert(before.push(bits[count - 1]) == sent);
            assert(bits.take(FRAME_BITS as int) == bits);
            self.lemma_bits_sent::<E>(bits, delays, (count - 1) as nat);
            self.lemma_run_append(
                bits_sent::<E>(before, delays),
                bit_sent::<E>(sent.last(), rise, fall),
            );
            (Exchange { received: before, ..self }).lemma_bit_sent::<E>(sent.last(), rise, fall);
        }
    }

    /// A sensor that keeps time is read by an exchange that stands at the
    /// release, as `Exchange::released()` does: if the acknowledgement and
    /// all forty bits come within the budget of their waits, however late
    /// within it, the exchange ends with what the bits decode to, the payload
    /// if their checksum holds and a checksum mismatch if it does not.
    pub proof fn lemma_sent_frame_is_decoded<E>(
        self,
        high: nat,
        low: nat,
        bits: Seq<bool>,
        delays: Seq<nat>,
    )
        requires
            self.wf(),
            self.stage is Release,
            high < TIMEOUT_US,
            low < TIMEOUT_US,
            bits.len() == FRAME_BITS,
            in_time(delays),
        ensures
            self.run(settling::<E>() + acknowledged(high, low) + bits_sent(bits, delays))
                == Outcome::<E>::Done(decode(bits)),
    {
        let settled = settling::<E>();
        let risen = settled + waited::<E>(high);
        let answered = risen + waited::<E>(low);
        self.lemma_settled::<E>();
        self.lemma_run_append(settled, waited::<E>(high));
        self.enter(Stage::AckHigh).lemma_wait_is_answered::<E>(high);
        self.lemma_run_append(risen, waited::<E>(low));
        self.enter(Stage::AckLow).lemma_wait_is_answered::<E>(low);
        assert(answered == settled + acknowledged::<E>(high, low));
        self.lemma_run_append(answered, bits_sent::<E>(bits, delays));
        assert(bits.take(FRAME_BITS as int) == bits);
        self.enter(Stage::BitHigh).lemma_bits_sent::<E>(bits, delays, FRAME_BITS as nat);
    }

    /// A sensor that keeps time is read by a whole exchange: after the reset
    /// pulse and the release, an acknowledgement and forty bits that come
    /// within the budget of their waits end the exchange with what the bits
    /// decode to.
    pub proof fn lemma_sent_frame_is_decoded_after_reset<E>(
        reset_ms: u32,
        high: nat,
        low: nat,
        bits: Seq<bool>,
        delays: Seq<nat>,
    )
        requires
            high < TIMEOUT_US,
            low < TIMEOUT_US,
            bits.len() == FRAME_BITS,
            in_time(delays),
        ensures
            Exchange::begin(reset_ms).run(
                opening::<E>() + acknowledged(high, low) + bits_sent(bits, delays),
            ) == Outcome::<E>::Done(decode(bits)),
    {
        let rest = acknowledged::<E>(high, low) + bits_sent::<E>(bits, delays);
        Exchange::lemma_after_reset::<E>(reset_ms, rest);
        assert(opening::<E>() + acknowledged::<E>(high, low) + bits_sent::<E>(bits, delays)
            == opening::<E>() + rest);
        assert(settling::<E>() + acknowledged::<E>(high, low) + bits_sent::<E>(bits, delays)
            == settling::<E>() + rest);
        Exchange::begin(reset_ms).enter(Stage::Release).lemma_sent_frame_is_decoded::<E>(
            high,
            low,
            bits,
            delays,
        );
    }

    /// A payload comes only out of a complete frame whose checksum holds: no
    /// response ends an exchange in success at any other point.
    pub proof fn lemma_payload_needs_whole_frame<E>(self, response: Response<E>, data: [u8; 4])
        requires
            self.next(response) == Outcome::<E>::Done(Ok(data)),
        ensures
            self.received.len() == FRAME_BITS,
            decode::<E>(self.received) == Ok::<[u8; 4], DhtError<E>>(data),
    {
    }
}

} // verus!
