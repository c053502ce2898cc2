//! What the protocol needs from the hardware: a line that can be driven and
//! read, and a way to let time pass.

use vstd::prelude::*;

verus! {

/// A digital line that the host can both drive and read. Every operation may
/// fail with the error type `E` of the hardware behind it.
pub trait InputOutputPin<E> {
    /// Drives the line low.
    fn set_low(&mut self) -> Result<(), E>;

    /// Releases the line to its pulled-up, high state.
    fn set_high(&mut self) -> Result<(), E>;

    /// Whether the line reads low.
    fn is_low(&mut self) -> Result<bool, E>;

    /// Whether the line reads high.
    fn is_high(&mut self) -> Result<bool, E>;
}

/// A source of pauses. How exact a pause is depends on the timer behind it.
pub trait Delay {
    /// Pauses for at least `us` microseconds.
    fn delay_us(&mut self, us: u32);

    /// Pauses for at least `ms` milliseconds.
    fn delay_ms(&mut self, ms: u32);
}

} // verus!
