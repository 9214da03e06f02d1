//! Driver for the register-based I2C sensor: a fixed command sequence
//! (status check, optional calibration, trigger, bounded busy-poll, result
//! read), two 20-bit packed fields, and a CRC-8 integrity check.

use vstd::prelude::*;

use crate::hal::{DelayProvider, I2cBus};
use crate::{SensorError, SensorReading};

verus! {

/// Fixed bus address of the sensor.
pub const SENSOR_ADDRESS: u8 = 0x38;

/// How many times the busy flag is polled, one millisecond apart, before the
/// read gives up with `SensorError::Timeout`.
pub const MAX_BUSY_POLLS: u32 = 250;

/// Delay between the status check and the trigger command, in milliseconds.
pub const TRIGGER_DELAY_MS: u32 = 10;

/// Delay after the trigger before the first busy poll, in milliseconds.
pub const MEASUREMENT_WAIT_MS: u32 = 80;

/// The pause between two busy polls, in milliseconds.
pub const BUSY_POLL_INTERVAL_MS: u32 = 1;

/// First register cleared by the calibration sequence.
pub const CALIBRATION_REGISTER_FIRST: u8 = 0x1B;

/// Second register cleared by the calibration sequence.
pub const CALIBRATION_REGISTER_SECOND: u8 = 0x1C;

/// Third register cleared by the calibration sequence.
pub const CALIBRATION_REGISTER_THIRD: u8 = 0x1E;

/// One bit step of the CRC-8 (polynomial `0x31`, no reflection): shift left,
/// and if the bit shifted out was set, fold in the polynomial.
pub open spec fn crc8_step(crc: u8) -> u8 {
    if crc & 0x80 != 0 {
        (crc << 1u8) ^ 0x31
    } else {
        crc << 1u8
    }
}

/// `k` bit steps of the CRC-8.
pub open spec fn crc8_steps(crc: u8, k: nat) -> u8
    decreases k,
{
    if k == 0 {
        crc
    } else {
        crc8_step(crc8_steps(crc, (k - 1) as nat))
    }
}

/// Folds one byte into the running CRC: XOR it in, then eight bit steps.
pub open spec fn crc8_push_byte(crc: u8, byte: u8) -> u8 {
    crc8_steps(crc ^ byte, 8)
}

/// CRC-8 of `data` continued from the running value `crc`.
pub open spec fn crc8_from(crc: u8, data: Seq<u8>) -> u8
    decreases data.len(),
{
    if data.len() == 0 {
        crc
    } else {
        crc8_from(crc8_push_byte(crc, data[0]), data.drop_first())
    }
}

/// The CRC-8 of a byte sequence: polynomial `0x31`, initial value `0xFF`,
/// no input or output reflection.
pub open spec fn crc8_of(data: Seq<u8>) -> u8 {
    crc8_from(0xFF, data)
}

/// Computes the CRC-8 of `data` (polynomial `0x31`, initial value `0xFF`).
pub fn calculate_crc(data: &Vec<u8>) -> (r: u8)
    ensures
        r == crc8_of(data@),
{
    let mut crc: u8 = 0xFF;
    let mut i: usize = 0;
    proof {
        assert(data@.skip(0) =~= data@);
    }
    while i < data.len()
        invariant
            i <= data@.len(),
            crc8_from(crc, data@.skip(i as int)) == crc8_of(data@),
        decreases data@.len() - i,
    {
        let ghost crc_before = crc;
        crc = crc ^ data[i];
        let ghost crc_xored = crc;
        let mut bit: usize = 0;
        while bit < 8
            invariant
                bit <= 8,
                crc == crc8_steps(crc_xored, bit as nat),
            decreases 8 - bit,
        {
            if crc & 0x80 != 0 {
                crc = (crc << 1u8) ^ 0x31;
            } else {
                crc = crc << 1u8;
            }
            bit = bit + 1;
        }
        proof {
            assert(crc == crc8_push_byte(crc_before, data@[i as int]));
            assert(data@.skip(i as int).drop_first() =~= data@.skip(i + 1));
            assert(data@.skip(i as int)[0] == data@[i as int]);
        }
        i = i + 1;
    }
    proof {
        assert(data@.skip(data@.len() as int) =~= Seq::<u8>::empty());
    }
    crc
}

proof fn lemma_crc8_step_injective(c1: u8, c2: u8)
    requires
        crc8_step(c1) == crc8_step(c2),
    ensures
        c1 == c2,
{
    assert((if c1 & 0x80 != 0 {
        (c1 << 1u8) ^ 0x31
    } else {
        c1 << 1u8
    }) == (if c2 & 0x80 != 0 {
        (c2 << 1u8) ^ 0x31
    } else {
        c2 << 1u8
    }) ==> c1 == c2) by (bit_vector);
}

proof fn lemma_crc8_steps_injective(c1: u8, c2: u8, k: nat)
    requires
        crc8_steps(c1, k) == crc8_steps(c2, k),
    ensures
        c1 == c2,
    decreases k,
{
    if k > 0 {
        lemma_crc8_step_injective(crc8_steps(c1, (k - 1) as nat), crc8_steps(c2, (k - 1) as nat));
        lemma_crc8_steps_injective(c1, c2, (k - 1) as nat);
    }
}

proof fn lemma_crc8_push_byte_injective(c1: u8, c2: u8, byte: u8)
    requires
        crc8_push_byte(c1, byte) == crc8_push_byte(c2, byte),
    ensures
        c1 == c2,
{
    lemma_crc8_steps_injective(c1 ^ byte, c2 ^ byte, 8);
    assert(c1 ^ byte == c2 ^ byte ==> c1 == c2) by (bit_vector);
}

proof fn lemma_crc8_push_byte_distinct(crc: u8, b1: u8, b2: u8)
    requires
        b1 != b2,
    ensures
        crc8_push_byte(crc, b1) != crc8_push_byte(crc, b2),
{
    if crc8_push_byte(crc, b1) == crc8_push_byte(crc, b2) {
        lemma_crc8_steps_injective(crc ^ b1, crc ^ b2, 8);
        assert(crc ^ b1 == crc ^ b2 ==> b1 == b2) by (bit_vector);
    }
}

proof fn lemma_crc8_from_injective(c1: u8, c2: u8, data: Seq<u8>)
    requires
        crc8_from(c1, data) == crc8_from(c2, data),
    ensures
        c1 == c2,
    decreases data.len(),
{
    if data.len() > 0 {
        lemma_crc8_from_injective(
            crc8_push_byte(c1, data[0]),
            crc8_push_byte(c2, data[0]),
            data.drop_first(),
        );
        lemma_crc8_push_byte_injective(c1, c2, data[0]);
    }
}

proof fn lemma_crc8_from_single_change(crc: u8, d1: Seq<u8>, d2: Seq<u8>, j: int)
    requires
        d1.len() == d2.len(),
        0 <= j < d1.len(),
        d1[j] != d2[j],
        forall|i: int| 0 <= i < d1.len() && i != j ==> d1[i] == d2[i],
    ensures
        crc8_from(crc, d1) != crc8_from(crc, d2),
    decreases d1.len(),
{
    if j == 0 {
        lemma_crc8_push_byte_distinct(crc, d1[0], d2[0]);
        assert(d1.drop_first() =~= d2.drop_first());
        if crc8_from(crc, d1) == crc8_from(crc, d2) {
            lemma_crc8_from_injective(
                crc8_push_byte(crc, d1[0]),
                crc8_push_byte(crc, d2[0]),
                d1.drop_first(),
            );
        }
    } else {
        assert forall|i: int|
            0 <= i < d1.drop_first().len() && i != j - 1 implies d1.drop_first()[i]
            == d2.drop_first()[i] by {
            assert(d1[i + 1] == d2[i + 1]);
        }
        lemma_crc8_from_single_change(
            crc8_push_byte(crc, d1[0]),
            d1.drop_first(),
            d2.drop_first(),
            j - 1,
        );
    }
}

/// The CRC-8 detects every corruption confined to a single byte, single-bit
/// errors included: two equal-length sequences that differ in exactly one
/// position never share a CRC.
pub proof fn lemma_crc8_detects_single_byte_change(d1: Seq<u8>, d2: Seq<u8>, j: int)
    requires
        d1.len() == d2.len(),
        0 <= j < d1.len(),
        d1[j] != d2[j],
        forall|i: int| 0 <= i < d1.len() && i != j ==> d1[i] == d2[i],
    ensures
        crc8_of(d1) != crc8_of(d2),
{
    lemma_crc8_from_single_change(0xFF, d1, d2, j);
}

/// The 20-bit humidity field: all of the first two data bytes and the upper
/// nibble of the third.
pub open spec fn raw_humidity_of(h0: u8, h1: u8, h2: u8) -> int {
    0x1000 * h0 + 0x10 * h1 + (h2 >> 4u8)
}

/// The 20-bit temperature field: the lower nibble of the third data byte and
/// all of the last two.
pub open spec fn raw_temperature_of(h2: u8, t0: u8, t1: u8) -> int {
    0x10000 * ((h2 & 0x0F) as int) + 0x100 * t0 + t1
}

/// Relative humidity in thousandths of a percent for a 20-bit raw value:
/// `raw / 2^20 * 100`, rounded toward zero to thousandths.
pub open spec fn humidity_milli_of(raw: int) -> int {
    raw * 100000 / 0x100000
}

/// Temperature in thousandths of a degree Celsius for a 20-bit raw value:
/// `raw / 2^20 * 200 - 50`, rounded toward zero to thousandths before the
/// 50-degree offset.
pub open spec fn temperature_milli_of(raw: int) -> int {
    raw * 200000 / 0x100000 - 50000
}

/// Scales a 20-bit raw humidity value to thousandths of a percent.
pub fn humidity_milli_from_raw(raw: u32) -> (r: i32)
    requires
        raw < 0x100000,
    ensures
        r as int == humidity_milli_of(raw as int),
        0 <= r <= 100000,
{
    proof {
        vstd::arithmetic::div_mod::lemma_div_is_ordered(
            (raw as int) * 100000,
            0xFFFFFint * 100000,
            0x100000,
        );
    }
    (((raw as u64) * 100000) / 0x100000) as i32
}

/// Scales a 20-bit raw temperature value to thousandths of a degree Celsius.
pub fn temperature_milli_from_raw(raw: u32) -> (r: i32)
    requires
        raw < 0x100000,
    ensures
        r as int == temperature_milli_of(raw as int),
        -50000 <= r <= 150000,
{
    proof {
        vstd::arithmetic::div_mod::lemma_div_is_ordered(
            (raw as int) * 200000,
            0xFFFFFint * 200000,
            0x100000,
        );
    }
    let scaled: u64 = ((raw as u64) * 200000) / 0x100000;
    (scaled as i32) - 50000
}

/// Whether the status byte reports the calibration bits as set.
pub open spec fn calibration_done(status: u8) -> bool {
    status & 0x18 == 0x18
}

/// Decides from the status byte whether calibration is already done, so that
/// no calibration command needs to be issued.
pub fn is_calibrated(status: u8) -> (r: bool)
    ensures
        r == calibration_done(status),
{
    status & 0x18 == 0x18
}

/// The one-byte command that selects the status register for reading.
pub fn status_query_command() -> (r: Vec<u8>)
    ensures
        r@ == seq![0x71u8],
{
    let mut command: Vec<u8> = Vec::new();
    command.push(0x71);
    proof {
        assert(command@ =~= seq![0x71u8]);
    }
    command
}

/// A three-byte calibration command: the register to clear, then two zero
/// bytes.
pub fn calibration_command(register: u8) -> (r: Vec<u8>)
    ensures
        r@ == seq![register, 0u8, 0u8],
{
    let mut command: Vec<u8> = Vec::new();
    command.push(register);
    command.push(0);
    command.push(0);
    proof {
        assert(command@ =~= seq![register, 0u8, 0u8]);
    }
    command
}

/// The three-byte command that starts a measurement.
pub fn trigger_command() -> (r: Vec<u8>)
    ensures
        r@ == seq![0xACu8, 0x33u8, 0x00u8],
{
    let mut command: Vec<u8> = Vec::new();
    command.push(0xAC);
    command.push(0x33);
    command.push(0x00);
    proof {
        assert(command@ =~= seq![0xACu8, 0x33u8, 0x00u8]);
    }
    command
}

/// Accepts a bus response only when it holds exactly the expected number of
/// bytes; a response of any other length is a transport fault, classified
/// `BusError`.
pub fn expect_response_length(response: Vec<u8>, expected_len: usize) -> (r: Result<
    Vec<u8>,
    SensorError,
>)
    ensures
        response@.len() == expected_len ==> (r matches Ok(v) && v@ == response@),
        response@.len() != expected_len ==> (r matches Err(e) && e == SensorError::BusError),
        r matches Ok(v) ==> v@.len() == expected_len,
{
    if response.len() == expected_len {
        Ok(response)
    } else {
        Err(SensorError::BusError)
    }
}

/// Validates the CRC-8 of a seven-byte measurement response
/// `[status, h0, h1, h2, t0, t1, crc]` and decodes the two 20-bit fields into
/// thousandths of a percent and thousandths of a degree Celsius.
pub fn decode_measurement(bytes: &Vec<u8>) -> (r: Result<SensorReading<i32>, SensorError>)
    requires
        bytes@.len() == 7,
    ensures
        bytes@[6] == crc8_of(bytes@.take(6)) ==> (r matches Ok(x) && x.humidity as int
            == humidity_milli_of(raw_humidity_of(bytes@[1], bytes@[2], bytes@[3]))
            && x.temperature as int == temperature_milli_of(
            raw_temperature_of(bytes@[3], bytes@[4], bytes@[5]),
        )),
        bytes@[6] != crc8_of(bytes@.take(6)) ==> (r matches Err(e) && e
            == SensorError::ChecksumMismatch),
        r matches Ok(x) ==> 0 <= x.humidity <= 100000 && -50000 <= x.temperature <= 150000,
{
    let mut data: Vec<u8> = Vec::new();
    let mut i: usize = 0;
    while i < 6
        invariant
            i <= 6,
            bytes@.len() == 7,
            data@ =~= bytes@.take(i as int),
        decreases 6 - i,
    {
        data.push(bytes[i]);
        proof {
            assert(data@ =~= bytes@.take(i + 1));
        }
        i = i + 1;
    }
    let computed_crc = calculate_crc(&data);
    if bytes[6] != computed_crc {
        return Err(SensorError::ChecksumMismatch);
    }

    let h0 = bytes[1];
    let h1 = bytes[2];
    let h2 = bytes[3];
    let t0 = bytes[4];
    let t1 = bytes[5];
    proof {
        assert(h2 >> 4u8 < 0x10) by (bit_vector);
        assert(h2 & 0x0F <= 0x0F) by (bit_vector);
    }
    let raw_humidity: u32 = 0x1000 * (h0 as u32) + 0x10 * (h1 as u32) + ((h2 >> 4u8) as u32);
    let raw_temperature: u32 = 0x10000 * ((h2 & 0x0F) as u32) + 0x100 * (t0 as u32) + (t1 as u32);

    Ok(
        SensorReading {
            humidity: humidity_milli_from_raw(raw_humidity),
            temperature: temperature_milli_from_raw(raw_temperature),
        },
    )
}

/// The I2C sensor: one bus handle and one delay source, owned for the
/// driver's lifetime.
pub struct Dht20<B: I2cBus, D: DelayProvider> {
    pub i2c: B,
    pub delay: D,
}

impl<B: I2cBus, D: DelayProvider> Dht20<B, D> {
    /// Takes ownership of the bus and the delay source; the result drives
    /// exactly the handles it was given.
    pub fn new(i2c: B, delay: D) -> (r: Self)
        ensures
            r.i2c == i2c,
            r.delay == delay,
    {
        Self { i2c, delay }
    }

    /// Polls the one-byte status register, one millisecond between polls,
    /// until the busy flag (bit 7) is clear. The poll is bounded by
    /// `MAX_BUSY_POLLS`; exhausting the budget yields `Timeout`, and a bus
    /// fault yields `BusError`.
    pub fn wait_until_ready(&mut self) -> (r: Result<u8, SensorError>)
        ensures
            r matches Ok(status) ==> status & 0x80 == 0,
            r matches Err(e) ==> e == SensorError::Timeout || e == SensorError::BusError,
    {
        let mut polls: u32 = 0;
        while polls < MAX_BUSY_POLLS
            invariant
                polls <= MAX_BUSY_POLLS,
            decreases MAX_BUSY_POLLS - polls,
        {
            let raw_response = match self.i2c.read(SENSOR_ADDRESS, 1) {
                Ok(bytes) => bytes,
                Err(_) => {
                    return Err(SensorError::BusError);
                },
            };
            let response = match expect_response_length(raw_response, 1) {
                Ok(bytes) => bytes,
                Err(e) => {
                    return Err(e);
                },
            };
            let status = response[0];
            if status & 0x80 == 0 {
                return Ok(status);
            }
            self.delay.delay_ms(BUSY_POLL_INTERVAL_MS);
            polls = polls + 1;
        }
        Err(SensorError::Timeout)
    }

    /// Runs the full command sequence — status check, calibration when the
    /// calibration bits are not yet set, trigger, bounded busy-poll, result
    /// read — and reports the reading in thousandths of a percent and
    /// thousandths of a degree Celsius. A response that fails the CRC is
    /// discarded as `ChecksumMismatch`; bus faults come back as `BusError`,
    /// and a busy flag that never clears as `Timeout`.
    pub fn read(&mut self) -> (r: Result<SensorReading<i32>, SensorError>)
        ensures
            r matches Ok(x) ==> 0 <= x.humidity <= 100000 && -50000 <= x.temperature <= 150000,
    {
        // Status check.
        let raw_status = match self.i2c.write_read(SENSOR_ADDRESS, &status_query_command(), 1) {
            Ok(bytes) => bytes,
            Err(_) => {
                return Err(SensorError::BusError);
            },
        };
        let status_response = match expect_response_length(raw_status, 1) {
            Ok(bytes) => bytes,
            Err(e) => {
                return Err(e);
            },
        };
        let status = status_response[0];

        // Calibration gate: only an uncalibrated sensor gets the three
        // calibration commands.
        if !is_calibrated(status) {
            match self.i2c.write(SENSOR_ADDRESS, &calibration_command(CALIBRATION_REGISTER_FIRST))
            {
                Ok(()) => {},
                Err(_) => {
                    return Err(SensorError::BusError);
                },
            }
            match self.i2c.write(
                SENSOR_ADDRESS,
                &calibration_command(CALIBRATION_REGISTER_SECOND),
            ) {
                Ok(()) => {},
                Err(_) => {
                    return Err(SensorError::BusError);
                },
            }
            match self.i2c.write(SENSOR_ADDRESS, &calibration_command(CALIBRATION_REGISTER_THIRD))
            {
                Ok(()) => {},
                Err(_) => {
                    return Err(SensorError::BusError);
                },
            }
        }

        // Trigger the measurement.
        self.delay.delay_ms(TRIGGER_DELAY_MS);
        match self.i2c.write(SENSOR_ADDRESS, &trigger_command()) {
            Ok(()) => {},
            Err(_) => {
                return Err(SensorError::BusError);
            },
        }

        // Wait for the measurement to complete.
        self.delay.delay_ms(MEASUREMENT_WAIT_MS);
        match self.wait_until_ready() {
            Ok(_) => {},
            Err(e) => {
                return Err(e);
            },
        }

        // Result read: status, five data bytes, CRC.
        let raw_measurement = match self.i2c.read(SENSOR_ADDRESS, 7) {
            Ok(bytes) => bytes,
            Err(_) => {
                return Err(SensorError::BusError);
            },
        };
        let measurement = match expect_response_length(raw_measurement, 7) {
            Ok(bytes) => bytes,
            Err(e) => {
                return Err(e);
            },
        };
        decode_measurement(&measurement)
    }
}

} // verus!
