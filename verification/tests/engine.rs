use dht_sensor::read::{
    Engine, Progress, Request, Response, POLL_US, RELEASE_US, SAMPLE_US, TIMEOUT_US,
};
use dht_sensor::DhtError;

type Ended = Result<[u8; 4], DhtError<u8>>;

fn pending(progress: Progress<u8>) -> Engine {
    match progress {
        Progress::Pending(engine) => engine,
        Progress::Done(result) => panic!("the exchange is over: {:?}", result),
    }
}

fn done(progress: Progress<u8>) -> Ended {
    match progress {
        Progress::Done(result) => result,
        Progress::Pending(_) => panic!("the exchange goes on"),
    }
}

/// An engine that has just begun the wait for the line to go high.
fn at_first_wait() -> Engine {
    let engine = Engine::begin(18);
    let engine = pending(engine.step(Response::Written(Ok(()))));
    let engine = pending(engine.step(Response::Elapsed));
    let engine = pending(engine.step(Response::Written(Ok(()))));
    pending(engine.step(Response::Elapsed))
}

/// Answers a wait for a level at the first sample.
fn level_shown(engine: Engine) -> Progress<u8> {
    engine.step(Response::Level(Ok(true)))
}

/// An engine that waits for the high pulse of the first bit.
fn at_first_bit() -> Engine {
    let engine = pending(level_shown(at_first_wait()));
    pending(level_shown(engine))
}

/// Sends one bit the short way: each wait is answered at its first sample.
fn send_bit(engine: Engine, bit: bool) -> Progress<u8> {
    assert_eq!(engine.request(), Request::IsHigh);
    let engine = pending(level_shown(engine));
    assert_eq!(engine.request(), Request::DelayUs(SAMPLE_US));
    let engine = pending(engine.step(Response::Elapsed));
    assert_eq!(engine.request(), Request::IsHigh);
    let engine = pending(engine.step(Response::Level(Ok(bit))));
    assert_eq!(engine.request(), Request::IsLow);
    level_shown(engine)
}

fn send_bytes(bytes: [u8; 5]) -> Ended {
    let mut engine = at_first_bit();
    for (index, byte) in bytes.iter().enumerate() {
        for place in 0..8 {
            let progress = send_bit(engine, byte & (0x80 >> place) != 0);
            if index == 4 && place == 7 {
                return done(progress);
            }
            engine = pending(progress);
        }
    }
    unreachable!()
}

#[test]
fn exchange_opens_with_the_reset_pulse() {
    let engine = Engine::begin(18);
    assert_eq!(engine.request(), Request::SetLow);
    let engine = pending(engine.step::<u8>(Response::Written(Ok(()))));
    assert_eq!(engine.request(), Request::DelayMs(18));
    let engine = pending(engine.step::<u8>(Response::Elapsed));
    assert_eq!(engine.request(), Request::SetHigh);
    let engine = pending(engine.step::<u8>(Response::Written(Ok(()))));
    assert_eq!(engine.request(), Request::DelayUs(RELEASE_US));
    let engine = pending(engine.step::<u8>(Response::Elapsed));
    assert_eq!(engine.request(), Request::IsHigh);
}

#[test]
fn reset_pulse_has_the_asked_length() {
    let engine = pending(Engine::begin(1).step::<u8>(Response::Written(Ok(()))));
    assert_eq!(engine.request(), Request::DelayMs(1));
}

#[test]
fn released_exchange_skips_the_reset_pulse() {
    let engine = Engine::released();
    assert_eq!(engine.request(), Request::SetHigh);
    let engine = pending(engine.step::<u8>(Response::Written(Ok(()))));
    assert_eq!(engine.request(), Request::DelayUs(48));
}

#[test]
fn failed_reset_ends_the_exchange() {
    let result = done(Engine::begin(18).step(Response::Written(Err(9u8))));
    assert!(matches!(result, Err(DhtError::PinError(9))));
}

#[test]
fn failed_release_ends_the_exchange() {
    let result = done(Engine::released().step(Response::Written(Err(9u8))));
    assert!(matches!(result, Err(DhtError::PinError(9))));
}

#[test]
fn failed_release_after_the_reset_pulse_ends_the_exchange() {
    let engine = pending(Engine::begin(18).step(Response::Written(Ok(()))));
    let engine = pending(engine.step(Response::Elapsed));
    assert_eq!(engine.request(), Request::SetHigh);
    let result = done(engine.step(Response::Written(Err(7u8))));
    assert!(matches!(result, Err(DhtError::PinError(7))));
}

#[test]
fn acknowledgement_is_high_then_low() {
    let engine = at_first_wait();
    assert_eq!(engine.request(), Request::IsHigh);
    let engine = pending(level_shown(engine));
    assert_eq!(engine.request(), Request::IsLow);
    let engine = pending(level_shown(engine));
    assert_eq!(engine.request(), Request::IsHigh);
}

#[test]
fn missed_sample_is_followed_by_a_pause() {
    let engine = at_first_wait();
    let engine = pending(engine.step(Response::Level(Ok(false))));
    assert_eq!(engine.request(), Request::DelayUs(POLL_US));
    assert_eq!(POLL_US, 1);
    let engine = pending(engine.step(Response::Elapsed));
    assert_eq!(engine.request(), Request::IsHigh);
}

#[test]
fn wait_times_out_after_exactly_the_budget() {
    assert_eq!(TIMEOUT_US, 100);
    let mut engine = at_first_wait();
    for _ in 0..99 {
        engine = pending(engine.step(Response::Level(Ok(false))));
        engine = pending(engine.step(Response::Elapsed));
    }
    assert_eq!(engine.request(), Request::IsHigh);
    let engine = pending(engine.step(Response::Level(Ok(false))));
    assert_eq!(engine.request(), Request::DelayUs(1));
    let result = done(engine.step(Response::Elapsed));
    assert!(matches!(result, Err(DhtError::Timeout)));
}

#[test]
fn wait_is_answered_by_the_last_sample_of_its_budget() {
    let mut engine = at_first_wait();
    for _ in 0..99 {
        engine = pending(engine.step(Response::Level(Ok(false))));
        engine = pending(engine.step(Response::Elapsed));
    }
    let engine = pending(level_shown(engine));
    assert_eq!(engine.request(), Request::IsLow);
}

#[test]
fn every_wait_has_a_budget_of_its_own() {
    let mut engine = at_first_wait();
    for _ in 0..60 {
        engine = pending(engine.step(Response::Level(Ok(false))));
        engine = pending(engine.step(Response::Elapsed));
    }
    engine = pending(level_shown(engine));
    for _ in 0..99 {
        engine = pending(engine.step(Response::Level(Ok(false))));
        engine = pending(engine.step(Response::Elapsed));
    }
    assert_eq!(engine.request(), Request::IsLow);
    let engine = pending(engine.step(Response::Level(Ok(false))));
    let result = done(engine.step(Response::Elapsed));
    assert!(matches!(result, Err(DhtError::Timeout)));
}

#[test]
fn wait_for_a_bit_times_out_too() {
    let mut engine = at_first_bit();
    for _ in 0..100 {
        engine = pending(engine.step(Response::Level(Ok(false))));
        let progress = engine.step::<u8>(Response::Elapsed);
        match progress {
            Progress::Pending(next) => engine = next,
            Progress::Done(result) => {
                assert!(matches!(result, Err(DhtError::Timeout)));
                return;
            }
        }
    }
    panic!("the wait went on past its budget");
}

#[test]
fn pin_fault_ends_a_wait() {
    let result = done(at_first_wait().step(Response::Level(Err(4))));
    assert!(matches!(result, Err(DhtError::PinError(4))));
}

#[test]
fn pin_fault_ends_a_sample() {
    let engine = pending(level_shown(at_first_bit()));
    let engine = pending(engine.step(Response::Elapsed));
    let result = done(engine.step(Response::Level(Err(5))));
    assert!(matches!(result, Err(DhtError::PinError(5))));
}

#[test]
fn response_of_the_wrong_kind_is_ignored() {
    let engine = Engine::begin(18);
    let engine = pending(engine.step::<u8>(Response::Elapsed));
    assert_eq!(engine.request(), Request::SetLow);
    let engine = pending(engine.step::<u8>(Response::Level(Ok(true))));
    assert_eq!(engine.request(), Request::SetLow);
    let engine = at_first_wait();
    let engine = pending(engine.step(Response::Written(Err(1))));
    assert_eq!(engine.request(), Request::IsHigh);
    let engine = pending(engine.step(Response::Elapsed));
    assert_eq!(engine.request(), Request::IsHigh);
    let engine = pending(engine.step(Response::Level(Ok(false))));
    let engine = pending(engine.step(Response::Level(Ok(true))));
    assert_eq!(engine.request(), Request::DelayUs(1));
}

#[test]
fn bit_is_sampled_after_the_hold() {
    let engine = at_first_bit();
    assert_eq!(engine.request(), Request::IsHigh);
    let engine = pending(level_shown(engine));
    assert_eq!(engine.request(), Request::DelayUs(35));
    let engine = pending(engine.step(Response::Elapsed));
    assert_eq!(engine.request(), Request::IsHigh);
    let engine = pending(engine.step(Response::Level(Ok(false))));
    assert_eq!(engine.request(), Request::IsLow);
}

#[test]
fn exchange_yields_the_payload() {
    let result = send_bytes([0x32, 0x00, 0x1B, 0x00, 0x4D]);
    assert!(matches!(result, Ok([0x32, 0x00, 0x1B, 0x00])));
    let result = send_bytes([0x02, 0x90, 0x80, 0x1B, 0x2D]);
    assert!(matches!(result, Ok([0x02, 0x90, 0x80, 0x1B])));
}

#[test]
fn exchange_rejects_a_wrong_checksum() {
    let result = send_bytes([0x32, 0x00, 0x1B, 0x00, 0x4E]);
    assert!(matches!(result, Err(DhtError::ChecksumMismatch)));
    let result = send_bytes([0x32, 0x00, 0x1B, 0x01, 0x4D]);
    assert!(matches!(result, Err(DhtError::ChecksumMismatch)));
}

#[test]
fn exchange_checks_the_sum_for_every_fifth_byte() {
    for fifth in 0..=255u8 {
        let result = send_bytes([0xF0, 0x0F, 0x33, 0x01, fifth]);
        if fifth == 0x33 {
            assert!(matches!(result, Ok([0xF0, 0x0F, 0x33, 0x01])));
        } else {
            assert!(matches!(result, Err(DhtError::ChecksumMismatch)));
        }
    }
}

#[test]
fn exchange_goes_on_until_the_fortieth_bit() {
    let mut engine = at_first_bit();
    for _ in 0..39 {
        engine = pending(send_bit(engine, false));
    }
    let result = done(send_bit(engine, false));
    assert!(matches!(result, Ok([0, 0, 0, 0])));
}

#[test]
fn timeout_in_the_last_wait_gives_no_payload() {
    let mut engine = at_first_bit();
    for _ in 0..39 {
        engine = pending(send_bit(engine, false));
    }
    engine = pending(level_shown(engine));
    engine = pending(engine.step(Response::Elapsed));
    engine = pending(engine.step(Response::Level(Ok(false))));
    for _ in 0..99 {
        engine = pending(engine.step(Response::Level(Ok(false))));
        engine = pending(engine.step(Response::Elapsed));
    }
    engine = pending(engine.step(Response::Level(Ok(false))));
    let result = done(engine.step(Response::Elapsed));
    assert!(matches!(result, Err(DhtError::Timeout)));
}
