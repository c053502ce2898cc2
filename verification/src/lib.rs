//! Driver logic for the DHT11 and DHT22 temperature and humidity sensors.
//!
//! The sensors speak a one-wire protocol that the host bit-bangs over a single
//! pin: the host wakes the sensor with a low pulse, the sensor answers and
//! sends forty bits, each as a high pulse whose length tells a one from a
//! zero. The last eight bits are the checksum of the first thirty-two.
//!
//! - [`pin`] says what the protocol needs from the hardware.
//! - [`read`] is the exchange for a host that samples the line in a loop,
//!   [`read_async`] the one for a host that sleeps until the line changes.
//!   Both are state machines with a mathematical model and proved laws.
//! - [`frame`] collects the bits and checks the checksum.
//! - [`dht11`] and [`dht22`] decode the payload of either sensor and read it
//!   from a pin.

use vstd::prelude::*;

pub mod dht11;
pub mod dht22;
pub mod error;
pub mod frame;
pub mod pin;
pub mod read;
pub mod read_async;

pub use error::DhtError;

verus! {

/// The sign flag of a sign-magnitude byte: its top bit.
pub open spec fn sign_of(byte: u8) -> bool {
    byte >= 0x80
}

/// The magnitude of a sign-magnitude byte: its low seven bits.
pub open spec fn magnitude_of(byte: u8) -> u8 {
    (byte % 0x80) as u8
}

/// The number that a sign-magnitude byte stands for. A set sign flag over a
/// magnitude of zero stands for zero.
pub open spec fn signed_value(byte: u8) -> int {
    if sign_of(byte) {
        -(magnitude_of(byte) as int)
    } else {
        magnitude_of(byte) as int
    }
}

/// The sign-magnitude byte that stands for a number from -127 to 127.
pub open spec fn sign_magnitude(value: int) -> u8 {
    if value < 0 {
        (0x80 - value) as u8
    } else {
        value as u8
    }
}

/// Splits a sign-magnitude byte into its sign flag and its magnitude.
pub fn convert_signed(signed: u8) -> (r: (bool, u8))
    ensures
        r.0 == sign_of(signed),
        r.1 == magnitude_of(signed),
{
    let sign = signed & 0x80 != 0;
    let magnitude = signed & 0x7F;
    assert((signed & 0x80 != 0) == (signed >= 0x80)) by (bit_vector);
    assert(signed & 0x7F == signed % 0x80) by (bit_vector);
    (sign, magnitude)
}

/// Writing a number from -127 to 127 as a sign-magnitude byte and reading the
/// byte back gives the number again.
pub proof fn lemma_sign_magnitude_round_trip(value: int)
    requires
        -127 <= value <= 127,
    ensures
        signed_value(sign_magnitude(value)) == value,
        sign_of(sign_magnitude(value)) == (value < 0),
{
}

/// Reading a byte as sign and magnitude loses nothing: the two give the byte back.
pub proof fn lemma_sign_and_magnitude_make_byte(byte: u8)
    ensures
        byte == magnitude_of(byte) + (if sign_of(byte) { 0x80int } else { 0 }),
        magnitude_of(byte) <= 127,
{
}

/// The byte with the sign flag set over a magnitude of zero stands for zero.
pub proof fn lemma_negative_zero()
    ensures
        sign_of(0x80),
        magnitude_of(0x80) == 0,
        signed_value(0x80) == 0,
{
}

} // verus!
