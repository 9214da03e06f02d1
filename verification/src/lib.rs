//! Drivers for three temperature/humidity sensor variants.
//!
//! Two sensor models share a timing-based single-wire protocol (a byte-level
//! bit reader plus a five-byte frame with an additive checksum); the third
//! speaks a register-based protocol over an I2C-like bus, with two 20-bit
//! packed fields guarded by a CRC-8.
//!
//! The drivers are generic over three capability interfaces (a digital line,
//! a bus, a delay provider) that the platform layer implements; every wait is
//! bounded, so a `read()` call always terminates with a reading or a
//! classified error.

use vstd::prelude::*;

pub mod dht;
pub mod dht11;
pub mod dht20;
pub mod dht22;
pub mod hal;

verus! {

/// A reading from a sensor.
///
/// Each driver documents the unit it fills in; the verified drivers report
/// thousandths of a percent (relative humidity) and thousandths of a degree
/// Celsius, so that the value is an exact integer.
#[derive(Clone, Copy, Debug)]
pub struct SensorReading<T> {
    pub humidity: T,
    pub temperature: T,
}

/// Classification of a failed sensor read.
#[derive(Clone, Copy, Debug, PartialEq, Eq, Structural)]
pub enum SensorError {
    /// A frame arrived but its checksum or CRC did not match; the data is discarded.
    ChecksumMismatch,
    /// A required line transition or busy-flag clear did not happen within the poll budget.
    Timeout,
    /// The underlying line or bus transaction signaled a fault.
    BusError,
}

} // verus!
