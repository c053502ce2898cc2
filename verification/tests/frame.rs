use dht_sensor::frame::{checksum, validate, Frame, FRAME_BITS};
use dht_sensor::DhtError;

fn frame_of(bytes: [u8; 5]) -> Frame {
    let mut frame = Frame::new();
    for byte in bytes {
        for place in 0..8 {
            frame = frame.push(byte & (0x80 >> place) != 0);
        }
    }
    frame
}

#[test]
fn checksum_adds_the_four_bytes() {
    assert_eq!(checksum(&[0x32, 0x00, 0x1B, 0x00]), 0x4D);
    assert_eq!(checksum(&[0, 0, 0, 0]), 0);
    assert_eq!(checksum(&[1, 2, 3, 4]), 10);
}

#[test]
fn checksum_wraps_at_256() {
    assert_eq!(checksum(&[0xFF, 0x01, 0x00, 0x00]), 0x00);
    assert_eq!(checksum(&[0xFF, 0xFF, 0xFF, 0xFF]), 0xFC);
    assert_eq!(checksum(&[0x80, 0x80, 0x80, 0x81]), 0x01);
}

#[test]
fn validate_accepts_the_checksum_and_nothing_else() {
    let data = [0x02, 0x90, 0x80, 0x1B];
    let sum = checksum(&data);
    assert_eq!(sum, 0x2D);
    for received in 0..=255u8 {
        let result = validate::<()>(data, received);
        if received == sum {
            assert!(matches!(result, Ok(bytes) if bytes == data));
        } else {
            assert!(matches!(result, Err(DhtError::ChecksumMismatch)));
        }
    }
}

#[test]
fn new_frame_is_empty() {
    let frame = Frame::new();
    assert_eq!(frame.len(), 0);
    assert!(!frame.is_complete());
}

#[test]
fn frame_counts_its_bits() {
    let mut frame = Frame::new();
    for count in 1..=FRAME_BITS {
        frame = frame.push(count % 3 == 0);
        assert_eq!(frame.len(), count);
        assert_eq!(frame.is_complete(), count == 40);
    }
}

#[test]
fn frame_reads_most_significant_bit_first() {
    let mut frame = Frame::new();
    // 1000_0000, 0000_0001, 0100_0000, 0000_0010, then their sum 1100_0011.
    let bits = [
        1, 0, 0, 0, 0, 0, 0, 0, 0, 0, 0, 0, 0, 0, 0, 1, 0, 1, 0, 0, 0, 0, 0, 0, 0, 0, 0, 0, 0, 0,
        1, 0, 1, 1, 0, 0, 0, 0, 1, 1,
    ];
    for bit in bits {
        frame = frame.push(bit == 1);
    }
    let result = frame.finish::<()>();
    assert!(matches!(result, Ok([0x80, 0x01, 0x40, 0x02])));
}

#[test]
fn frame_finish_checks_the_fifth_byte() {
    let good = frame_of([0x32, 0x00, 0x1B, 0x00, 0x4D]);
    assert!(matches!(good.finish::<()>(), Ok([0x32, 0x00, 0x1B, 0x00])));
    let bad = frame_of([0x32, 0x00, 0x1B, 0x00, 0x4C]);
    assert!(matches!(bad.finish::<()>(), Err(DhtError::ChecksumMismatch)));
}

#[test]
fn frame_of_zeros_and_of_ones() {
    assert!(matches!(frame_of([0; 5]).finish::<()>(), Ok([0, 0, 0, 0])));
    assert!(matches!(
        frame_of([0xFF, 0xFF, 0xFF, 0xFF, 0xFC]).finish::<()>(),
        Ok([0xFF, 0xFF, 0xFF, 0xFF])
    ));
    assert!(matches!(
        frame_of([0xFF; 5]).finish::<()>(),
        Err(DhtError::ChecksumMismatch)
    ));
}

#[test]
fn frame_push_leaves_the_earlier_frame_alone() {
    let first = Frame::new().push(true);
    let second = first.push(true);
    assert_eq!(first.len(), 1);
    assert_eq!(second.len(), 2);
}

#[test]
fn error_wraps_what_the_pin_reports() {
    let error: DhtError<u8> = DhtError::from(7);
    assert!(matches!(error, DhtError::PinError(7)));
    let error: DhtError<&str> = "stuck".into();
    assert!(matches!(error, DhtError::PinError("stuck")));
}

#[test]
fn error_kinds_print_apart() {
    assert_eq!(format!("{:?}", DhtError::<u8>::Timeout), "Timeout");
    assert_eq!(
        format!("{:?}", DhtError::<u8>::ChecksumMismatch),
        "ChecksumMismatch"
    );
    assert_eq!(format!("{:?}", DhtError::PinError(3u8)), "PinError(3)");
}
