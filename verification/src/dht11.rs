//! The DHT11: whole degrees Celsius and whole percent.

use vstd::prelude::*;
use crate::{convert_signed, sign_magnitude, signed_value};

pub mod blocking;

verus! {

/// How long the host holds the line low to wake a DHT11, in milliseconds.
pub const RESET_MS: u32 = 18;

/// A reading of a DHT11.
#[derive(Clone, Copy, Debug, PartialEq, Eq)]
pub struct Reading {
    /// Degrees Celsius.
    pub temperature: i8,
    /// Percent relative humidity.
    pub relative_humidity: u8,
}

/// The reading that a payload stands for: the first byte is the humidity,
/// the third the temperature as sign and magnitude.
pub open spec fn reading_of(bytes: [u8; 4]) -> Reading {
    Reading { temperature: signed_value(bytes[2]) as i8, relative_humidity: bytes[0] }
}

/// Decodes a payload.
pub fn raw_to_reading(bytes: [u8; 4]) -> (reading: Reading)
    ensures
        reading == reading_of(bytes),
{
    let relative_humidity = bytes[0];
    let temp_signed = bytes[2];
    let temperature = {
        let (signed, magnitude) = convert_signed(temp_signed);
        let temp_sign: i8 = if signed {
            -1
        } else {
            1
        };
        temp_sign * magnitude as i8
    };
    Reading { temperature, relative_humidity }
}

/// A temperature from -127 to 127 degrees, sent as a sign-magnitude byte, is
/// the temperature of the reading.
pub proof fn lemma_temperature_round_trip(bytes: [u8; 4], degrees: int)
    requires
        -127 <= degrees <= 127,
        bytes[2] == sign_magnitude(degrees),
    ensures
        reading_of(bytes).temperature == degrees,
{
}

/// A temperature byte with the sign flag set over a magnitude of zero reads
/// as zero degrees.
pub proof fn lemma_negative_zero_reads_zero(bytes: [u8; 4])
    requires
        bytes[2] == 0x80,
    ensures
        reading_of(bytes).temperature == 0,
{
}

} // verus!
