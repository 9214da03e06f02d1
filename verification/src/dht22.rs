//! Driver for the 16-bit scaled single-wire sensor (variant B): the frame
//! carries tenth-resolution values, the temperature in sign-magnitude form.

use vstd::prelude::*;

use crate::dht::{checksum_matches, checksum_of, Dht};
use crate::hal::{DelayProvider, DigitalLine};
use crate::{SensorError, SensorReading};

verus! {

/// Humidity carried by a variant B frame, in tenths of a percent: the two
/// bytes form one 16-bit value, high byte first.
pub open spec fn humidity_tenths_of(b0: u8, b1: u8) -> int {
    256 * b0 + b1
}

/// Temperature carried by a variant B frame, in tenths of a degree Celsius.
/// The top bit of the high byte is a sign bit (sign-magnitude, not two's
/// complement); the remaining 15 bits are the magnitude, high byte first.
pub open spec fn temperature_tenths_of(b2: u8, b3: u8) -> int {
    if b2 & 0x80 != 0 {
        -(256 * ((b2 & 0x7F) as int) + b3)
    } else {
        256 * ((b2 & 0x7F) as int) + b3
    }
}

/// Validates the additive checksum of a variant B frame and converts the
/// payload to thousandths of a percent and thousandths of a degree Celsius
/// (one hundred times the tenth-resolution wire values).
pub fn frame_to_reading(b0: u8, b1: u8, b2: u8, b3: u8, checksum: u8) -> (r: Result<
    SensorReading<i32>,
    SensorError,
>)
    ensures
        checksum as int == checksum_of(b0, b1, b2, b3) ==> (r matches Ok(x) && x.humidity == 100
            * humidity_tenths_of(b0, b1) && x.temperature == 100 * temperature_tenths_of(b2, b3)),
        checksum as int != checksum_of(b0, b1, b2, b3) ==> (r matches Err(e) && e
            == SensorError::ChecksumMismatch),
        r matches Ok(x) ==> 0 <= x.humidity <= 6553500 && -3276700 <= x.temperature <= 3276700,
{
    if !checksum_matches(b0, b1, b2, b3, checksum) {
        return Err(SensorError::ChecksumMismatch);
    }
    let humidity_value: u16 = 256 * (b0 as u16) + (b1 as u16);

    let temperature_high_clean: u8 = b2 & 0x7F;
    proof {
        assert(b2 & 0x7F <= 0x7F) by (bit_vector);
    }
    let temperature_value: u16 = 256 * (temperature_high_clean as u16) + (b3 as u16);
    let temperature_tenths: i32 = if b2 & 0x80 != 0 {
        -(temperature_value as i32)
    } else {
        temperature_value as i32
    };

    Ok(
        SensorReading {
            humidity: 100 * (humidity_value as i32),
            temperature: 100 * temperature_tenths,
        },
    )
}

/// Variant B sensor on one single-wire line.
pub struct Dht22<L: DigitalLine, D: DelayProvider> {
    dht: Dht<L, D>,
}

impl<L: DigitalLine, D: DelayProvider> Dht22<L, D> {
    /// The line-level core this driver owns.
    pub closed spec fn base(&self) -> Dht<L, D> {
        self.dht
    }

    /// Takes ownership of the line and the delay source; the result drives
    /// exactly the handles it was given.
    pub fn new(pin: L, delay: D) -> (r: Self)
        ensures
            r.base().pin == pin,
            r.base().delay == delay,
    {
        Self { dht: Dht::new(pin, delay) }
    }

    /// Wakes the sensor, reads one five-byte frame, validates the checksum,
    /// and reports the reading in thousandths of a percent and thousandths of
    /// a degree Celsius. A frame whose checksum does not match is discarded
    /// as `ChecksumMismatch`; line faults and missed transitions come back as
    /// `BusError` and `Timeout`.
    pub fn read(&mut self) -> (r: Result<SensorReading<i32>, SensorError>)
        ensures
            r matches Ok(x) ==> 0 <= x.humidity <= 6553500 && -3276700 <= x.temperature
                <= 3276700 && x.humidity % 100 == 0 && x.temperature % 100 == 0,
    {
        let (b0, b1, b2, b3, checksum) = match self.dht.read_frame() {
            Ok(frame) => frame,
            Err(e) => {
                return Err(e);
            },
        };
        frame_to_reading(b0, b1, b2, b3, checksum)
    }
}

} // verus!
