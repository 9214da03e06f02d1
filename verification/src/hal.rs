//! Capability interfaces the drivers are built on.
//!
//! The platform layer (outside this library) implements these for the
//! concrete pin, bus and timer peripherals. The drivers promise nothing about
//! what the hardware answers; every driver contract holds for any
//! implementation of these traits.

use vstd::prelude::*;

verus! {

/// Level of a digital line.
#[derive(Clone, Copy, Debug, PartialEq, Eq, Structural)]
pub enum LineLevel {
    Low,
    High,
}

/// A single open-drain digital line: it can be driven low, released high, and
/// sampled. Any operation may report a fault, surfaced by the drivers as
/// `SensorError::BusError`.
pub trait DigitalLine {
    /// Drives the line low.
    fn set_low(&mut self) -> Result<(), ()>;

    /// Releases the line (pulled high).
    fn set_high(&mut self) -> Result<(), ()>;

    /// Samples the line; `Ok(true)` when the level is high.
    fn is_high(&mut self) -> Result<bool, ()>;

    /// Samples the line; `Ok(true)` when the level is low.
    fn is_low(&mut self) -> Result<bool, ()>;
}

/// A blocking delay source.
pub trait DelayProvider {
    /// Blocks for `ms` milliseconds.
    fn delay_ms(&mut self, ms: u32);

    /// Blocks for `us` microseconds.
    fn delay_us(&mut self, us: u32);
}

/// A register-addressed bus (I2C-like). Reads report how many bytes came
/// back; the drivers check the count rather than trust it.
pub trait I2cBus {
    /// Writes `bytes` to the device at `address`.
    fn write(&mut self, address: u8, bytes: &Vec<u8>) -> Result<(), ()>;

    /// Reads `len` bytes from the device at `address`.
    fn read(&mut self, address: u8, len: usize) -> Result<Vec<u8>, ()>;

    /// Writes `tx`, then reads `rx_len` bytes, in one transaction.
    fn write_read(&mut self, address: u8, tx: &Vec<u8>, rx_len: usize) -> Result<Vec<u8>, ()>;
}

} // verus!
