//! The DHT22: tenths of a degree Celsius and tenths of a percent.

use vstd::prelude::*;
use crate::{convert_signed, magnitude_of, sign_of};

pub mod blocking;

verus! {

/// How long the host holds the line low to wake a DHT22, in milliseconds.
pub const RESET_MS: u32 = 1;

/// A decimal number with one digit after the point, held as a sign and a
/// count of tenths. The sign is kept apart so that minus zero stays minus zero.
#[derive(Clone, Copy, Debug, PartialEq, Eq)]
pub struct Tenths {
    /// Whether the number carries a minus sign.
    pub negative: bool,
    /// The number of tenths, without the sign.
    pub magnitude: u16,
}

impl Tenths {
    /// The number, counted in tenths.
    pub open spec fn value(self) -> int {
        if self.negative {
            -(self.magnitude as int)
        } else {
            self.magnitude as int
        }
    }
}

/// A reading of a DHT22.
#[derive(Clone, Copy, Debug, PartialEq, Eq)]
pub struct Reading {
    /// Degrees Celsius.
    pub temperature: Tenths,
    /// Percent relative humidity.
    pub relative_humidity: Tenths,
}

/// The sixteen-bit number whose high byte is `high` and whose low byte is `low`.
pub open spec fn big_endian(high: u8, low: u8) -> u16 {
    (high * 256 + low) as u16
}

/// The reading that a payload stands for: the first two bytes are the
/// humidity, the last two the temperature, both in tenths and big-endian; the
/// top bit of the third byte is the sign of the temperature.
pub open spec fn reading_of(bytes: [u8; 4]) -> Reading {
    Reading {
        temperature: Tenths {
            negative: sign_of(bytes[2]),
            magnitude: big_endian(magnitude_of(bytes[2]), bytes[3]),
        },
        relative_humidity: Tenths { negative: false, magnitude: big_endian(bytes[0], bytes[1]) },
    }
}

/// The two bytes that carry a temperature of `tenths` tenths of a degree,
/// from -32767 to 32767.
pub open spec fn temperature_bytes(tenths: int) -> (u8, u8) {
    if tenths < 0 {
        ((0x80 + (-tenths) / 256) as u8, ((-tenths) % 256) as u8)
    } else {
        ((tenths / 256) as u8, (tenths % 256) as u8)
    }
}

/// Decodes a payload.
pub fn raw_to_reading(bytes: [u8; 4]) -> (reading: Reading)
    ensures
        reading == reading_of(bytes),
{
    let rh_h = bytes[0];
    let rh_l = bytes[1];
    let temp_h_signed = bytes[2];
    let temp_l = bytes[3];
    proof {
        lemma_big_endian(rh_h, rh_l);
        lemma_big_endian(magnitude_of(temp_h_signed), temp_l);
    }
    let relative_humidity = (rh_h as u16) << 8 | (rh_l as u16);
    let (signed, magnitude) = convert_signed(temp_h_signed);
    let temp_magnitude = ((magnitude as u16) << 8) | temp_l as u16;
    Reading {
        temperature: Tenths { negative: signed, magnitude: temp_magnitude },
        relative_humidity: Tenths { negative: false, magnitude: relative_humidity },
    }
}

proof fn lemma_big_endian(high: u8, low: u8)
    by (bit_vector)
    ensures
        (high as u16) << 8 | (low as u16) == high * 256 + low,
{
}

/// A temperature from -3276.7 to 3276.7 degrees, sent as sign and magnitude
/// in two bytes, is the temperature of the reading, sign included.
pub proof fn lemma_temperature_round_trip(bytes: [u8; 4], tenths: int)
    requires
        -32767 <= tenths <= 32767,
        (bytes[2], bytes[3]) == temperature_bytes(tenths),
    ensures
        reading_of(bytes).temperature.value() == tenths,
        reading_of(bytes).temperature.negative == (tenths < 0),
{
}

/// A humidity from 0 to 6553.5 percent, sent in two bytes, is the humidity
/// of the reading.
pub proof fn lemma_humidity_round_trip(bytes: [u8; 4], tenths: int)
    requires
        0 <= tenths <= 65535,
        bytes[0] == tenths / 256,
        bytes[1] == tenths % 256,
    ensures
        reading_of(bytes).relative_humidity.value() == tenths,
{
}

/// A temperature with the sign flag set over a magnitude of zero reads as
/// minus zero: the sign is kept.
pub proof fn lemma_negative_zero_keeps_sign(bytes: [u8; 4])
    requires
        bytes[2] == 0x80,
        bytes[3] == 0,
    ensures
        reading_of(bytes).temperature == (Tenths { negative: true, magnitude: 0 }),
        reading_of(bytes).temperature.value() == 0,
{
}

} // verus!
