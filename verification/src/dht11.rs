//! Driver for the integer-resolution single-wire sensor (variant A): the
//! frame carries whole-number humidity and temperature bytes, with the
//! fractional bytes conventionally zero.

use vstd::prelude::*;

use crate::dht::{checksum_matches, checksum_of, Dht};
use crate::hal::{DelayProvider, DigitalLine};
use crate::{SensorError, SensorReading};

verus! {

/// Validates the additive checksum of a variant A frame and converts the
/// payload: humidity is `b0` whole percent, temperature is `b2` whole degrees
/// Celsius, both reported in thousandths. `b1` and `b3` are the fractional
/// bytes, conventionally zero for this variant and not used in the value.
pub fn frame_to_reading(b0: u8, b1: u8, b2: u8, b3: u8, checksum: u8) -> (r: Result<
    SensorReading<i32>,
    SensorError,
>)
    ensures
        checksum as int == checksum_of(b0, b1, b2, b3) ==> (r matches Ok(x) && x.humidity == 1000
            * (b0 as int) && x.temperature == 1000 * (b2 as int)),
        checksum as int != checksum_of(b0, b1, b2, b3) ==> (r matches Err(e) && e
            == SensorError::ChecksumMismatch),
{
    if !checksum_matches(b0, b1, b2, b3, checksum) {
        return Err(SensorError::ChecksumMismatch);
    }
    Ok(SensorReading { humidity: 1000 * (b0 as i32), temperature: 1000 * (b2 as i32) })
}

/// Variant A sensor on one single-wire line.
pub struct Dht11<L: DigitalLine, D: DelayProvider> {
    dht: Dht<L, D>,
}

impl<L: DigitalLine, D: DelayProvider> Dht11<L, D> {
    /// The line-level core this driver owns.
    pub closed spec fn base(&self) -> Dht<L, D> {
        self.dht
    }

    /// Takes ownership of the line and the delay source; the result drives
    /// exactly the handles it was given.
    pub fn new(pin: L, delay: D) -> (r: Self)
        ensures
            r.base().pin == pin,
            r.base().delay == delay,
    {
        Self { dht: Dht::new(pin, delay) }
    }

    /// Wakes the sensor, reads one five-byte frame, validates the checksum,
    /// and reports the reading in thousandths of a percent and thousandths of
    /// a degree Celsius. A frame whose checksum does not match is discarded
    /// as `ChecksumMismatch`; line faults and missed transitions come back as
    /// `BusError` and `Timeout`.
    pub fn read(&mut self) -> (r: Result<SensorReading<i32>, SensorError>)
        ensures
            r matches Ok(x) ==> 0 <= x.humidity <= 255000 && 0 <= x.temperature <= 255000
                && x.humidity % 1000 == 0 && x.temperature % 1000 == 0,
    {
        let (b0, b1, b2, b3, checksum) = match self.dht.read_frame() {
            Ok(frame) => frame,
            Err(e) => {
                return Err(e);
            },
        };
        frame_to_reading(b0, b1, b2, b3, checksum)
    }
}

} // verus!
