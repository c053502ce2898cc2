//! The forty bits of one transmission: how they are collected, which bytes
//! they spell and when their checksum holds.

use vstd::prelude::*;
use crate::error::DhtError;

verus! {

/// The number of bits in one transmission: four payload bytes and a checksum byte.
pub const FRAME_BITS: u8 = 40;

/// The sum of the four payload bytes, reduced modulo 256.
pub open spec fn checksum_of(data: [u8; 4]) -> u8 {
    ((data[0] + data[1] + data[2] + data[3]) % 256) as u8
}

/// What a bit contributes to a number in which it has the given weight.
pub open spec fn weigh(bit: bool, weight: int) -> int {
    if bit {
        weight
    } else {
        0
    }
}

/// The byte spelled by the bits `8 * index .. 8 * index + 8`, the most
/// significant bit first.
pub open spec fn byte_at(bits: Seq<bool>, index: int) -> u8 {
    let first = 8 * index;
    (weigh(bits[first], 128) + weigh(bits[first + 1], 64) + weigh(bits[first + 2], 32) + weigh(
        bits[first + 3],
        16,
    ) + weigh(bits[first + 4], 8) + weigh(bits[first + 5], 4) + weigh(bits[first + 6], 2) + weigh(
        bits[first + 7],
        1,
    )) as u8
}

/// The four payload bytes of a complete frame.
pub open spec fn payload_of(bits: Seq<bool>) -> [u8; 4] {
    [byte_at(bits, 0), byte_at(bits, 1), byte_at(bits, 2), byte_at(bits, 3)]
}

/// What a complete frame amounts to: its payload where the fifth byte is the
/// checksum of the first four, a checksum mismatch otherwise.
pub open spec fn decode<E>(bits: Seq<bool>) -> Result<[u8; 4], DhtError<E>> {
    if byte_at(bits, 4) == checksum_of(payload_of(bits)) {
        Ok(payload_of(bits))
    } else {
        Err(DhtError::ChecksumMismatch)
    }
}

/// The checksum decides what a complete frame amounts to: its payload if and
/// only if its fifth byte is the sum of the first four modulo 256, and a
/// checksum mismatch in every other case.
pub proof fn lemma_checksum_decides<E>(bits: Seq<bool>)
    ensures
        decode::<E>(bits) is Ok <==> byte_at(bits, 4) == (byte_at(bits, 0) + byte_at(bits, 1)
            + byte_at(bits, 2) + byte_at(bits, 3)) % 256,
        decode::<E>(bits) is Ok ==> decode::<E>(bits) == Ok::<[u8; 4], DhtError<E>>(
            payload_of(bits),
        ),
        decode::<E>(bits) is Err ==> decode::<E>(bits) == Err::<[u8; 4], DhtError<E>>(
            DhtError::ChecksumMismatch,
        ),
{
}

/// Computes the checksum that the sensor sends after a payload.
pub fn checksum(data: &[u8; 4]) -> (sum: u8)
    ensures
        sum == checksum_of(*data),
{
    data[0].wrapping_add(data[1]).wrapping_add(data[2]).wrapping_add(data[3])
}

/// Accepts a payload exactly when the byte received after it is its checksum.
pub fn validate<E>(data: [u8; 4], received: u8) -> (r: Result<[u8; 4], DhtError<E>>)
    ensures
        received == checksum_of(data) ==> r == Ok::<[u8; 4], DhtError<E>>(data),
        received != checksum_of(data) ==> r == Err::<[u8; 4], DhtError<E>>(
            DhtError::ChecksumMismatch,
        ),
{
    if checksum(&data) != received {
        Err(DhtError::ChecksumMismatch)
    } else {
        Ok(data)
    }
}

/// Whether the bit at `place` of `byte` is set, place 0 being the most significant.
pub open spec fn msb_bit(byte: u8, place: u8) -> bool {
    byte & (0x80u8 >> place) != 0
}

proof fn lemma_mask(place: u8)
    by (bit_vector)
    requires
        place < 8,
    ensures
        1u8 << ((7 - place) as u8) == 0x80u8 >> place,
{
}

proof fn lemma_set_bit(byte: u8, place: u8, other: u8)
    by (bit_vector)
    requires
        place < 8,
        other < 8,
    ensures
        (byte | (0x80u8 >> place)) & (0x80u8 >> other) != 0 <==> (byte & (0x80u8 >> other) != 0
            || other == place),
{
}

proof fn lemma_byte_value(byte: u8)
    by (bit_vector)
    ensures
        byte == (if byte & (0x80u8 >> 0u8) != 0 { 128u8 } else { 0u8 })
            + (if byte & (0x80u8 >> 1u8) != 0 { 64u8 } else { 0u8 })
            + (if byte & (0x80u8 >> 2u8) != 0 { 32u8 } else { 0u8 })
            + (if byte & (0x80u8 >> 3u8) != 0 { 16u8 } else { 0u8 })
            + (if byte & (0x80u8 >> 4u8) != 0 { 8u8 } else { 0u8 })
            + (if byte & (0x80u8 >> 5u8) != 0 { 4u8 } else { 0u8 })
            + (if byte & (0x80u8 >> 6u8) != 0 { 2u8 } else { 0u8 })
            + (if byte & (0x80u8 >> 7u8) != 0 { 1u8 } else { 0u8 }),
{
}

/// The bits received so far in one transmission, in the order of arrival.
///
/// The bits are kept in five bytes. Within a byte the first bit to arrive is
/// the most significant.
#[derive(Clone, Copy, Debug)]
pub struct Frame {
    bytes: [u8; 5],
    bits: u8,
}

impl View for Frame {
    type V = Seq<bool>;

    closed spec fn view(&self) -> Seq<bool> {
        Seq::new(self.bits as nat, |i: int| msb_bit(self.bytes[i / 8], (i % 8) as u8))
    }
}

impl Frame {
    /// No more than forty bits are held, and the places not yet received are clear.
    #[verifier::type_invariant]
    pub closed spec fn wf(&self) -> bool {
        &&& self.bits <= FRAME_BITS
        &&& forall|i: int|
            self.bits <= i < FRAME_BITS ==> !#[trigger] msb_bit(self.bytes[i / 8], (i % 8) as u8)
    }

    /// A frame that holds no bit yet.
    pub fn new() -> (frame: Frame)
        ensures
            frame@ == Seq::<bool>::empty(),
    {
        proof {
            assert(forall|place: u8| 0u8 & (0x80u8 >> place) == 0) by (bit_vector);
        }
        Frame { bytes: [0, 0, 0, 0, 0], bits: 0 }
    }

    /// The number of bits received.
    pub fn len(&self) -> (n: u8)
        ensures
            n == self@.len(),
            n <= FRAME_BITS,
    {
        proof {
            use_type_invariant(self);
        }
        self.bits
    }

    /// Whether all forty bits have arrived.
    pub fn is_complete(&self) -> (complete: bool)
        ensures
            complete == (self@.len() == FRAME_BITS),
    {
        self.bits == FRAME_BITS
    }

    /// Appends a bit. Within a byte the first bit to arrive is the most significant.
    pub fn push(self, bit: bool) -> (frame: Frame)
        requires
            self@.len() < FRAME_BITS,
        ensures
            frame@ == self@.push(bit),
    {
        proof {
            use_type_invariant(&self);
        }
        let index: usize = (self.bits / 8) as usize;
        let place: u8 = self.bits % 8;
        let mut bytes = self.bytes;
        if bit {
            let bit_mask: u8 = 1u8 << (7 - place);
            bytes[index] = bytes[index] | bit_mask;
            proof {
                lemma_mask(place);
            }
        }
        proof {
            assert forall|i: int| 0 <= i < FRAME_BITS implies #[trigger] msb_bit(
                bytes[i / 8],
                (i % 8) as u8,
            ) == (msb_bit(self.bytes[i / 8], (i % 8) as u8) || (bit && i == self.bits)) by {
                if bit && i / 8 == index {
                    lemma_set_bit(self.bytes[index as int], place, (i % 8) as u8);
                }
            }
        }
        let frame = Frame { bytes, bits: self.bits + 1 };
        assert(frame@ =~= self@.push(bit));
        frame
    }

    /// A bit held at a place of a byte is the bit received for that place.
    proof fn lemma_bit_held(&self, index: int, place: int)
        requires
            self.bits == FRAME_BITS,
            0 <= index < 5,
            0 <= place < 8,
        ensures
            self@[8 * index + place] == msb_bit(self.bytes[index], place as u8),
    {
        assert((8 * index + place) / 8 == index && (8 * index + place) % 8 == place);
    }

    /// Each byte held is the byte that the eight bits received for it spell.
    proof fn lemma_spelled(&self, index: int)
        requires
            self.bits == FRAME_BITS,
            0 <= index < 5,
        ensures
            self.bytes[index] == byte_at(self@, index),
    {
        self.lemma_bit_held(index, 0);
        self.lemma_bit_held(index, 1);
        self.lemma_bit_held(index, 2);
        self.lemma_bit_held(index, 3);
        self.lemma_bit_held(index, 4);
        self.lemma_bit_held(index, 5);
        self.lemma_bit_held(index, 6);
        self.lemma_bit_held(index, 7);
        lemma_byte_value(self.bytes[index]);
    }

    /// Closes a complete frame: the payload if the checksum holds, a checksum
    /// mismatch if it does not.
    pub fn finish<E>(self) -> (r: Result<[u8; 4], DhtError<E>>)
        requires
            self@.len() == FRAME_BITS,
        ensures
            r == decode::<E>(self@),
    {
        proof {
            use_type_invariant(&self);
            self.lemma_spelled(0);
            self.lemma_spelled(1);
            self.lemma_spelled(2);
            self.lemma_spelled(3);
            self.lemma_spelled(4);
        }
        let data: [u8; 4] = [self.bytes[0], self.bytes[1], self.bytes[2], self.bytes[3]];
        assert(data == payload_of(self@));
        validate(data, self.bytes[4])
    }
}

} // verus!
