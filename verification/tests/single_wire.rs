use dht_sensor::dht::{assemble_byte, checksum_matches, Dht};
use dht_sensor::dht11::Dht11;
use dht_sensor::dht22::Dht22;
use dht_sensor::hal::{DelayProvider, DigitalLine, LineLevel};
use dht_sensor::SensorError;

/// A line that answers samples from a fixed script (`true` = high). When the
/// script runs out it keeps answering `fallback`, or panics if there is none.
struct ScriptLine {
    levels: Vec<bool>,
    pos: usize,
    fallback: Option<bool>,
}

impl ScriptLine {
    fn new(levels: Vec<bool>) -> Self {
        ScriptLine { levels, pos: 0, fallback: None }
    }

    fn stuck(level: bool) -> Self {
        ScriptLine { levels: Vec::new(), pos: 0, fallback: Some(level) }
    }

    fn next_level(&mut self) -> bool {
        if self.pos < self.levels.len() {
            let level = self.levels[self.pos];
            self.pos += 1;
            level
        } else {
            self.fallback.expect("line script exhausted")
        }
    }

    fn done(&self) {
        assert_eq!(self.pos, self.levels.len());
    }
}

impl DigitalLine for ScriptLine {
    fn set_low(&mut self) -> Result<(), ()> {
        Ok(())
    }

    fn set_high(&mut self) -> Result<(), ()> {
        Ok(())
    }

    fn is_high(&mut self) -> Result<bool, ()> {
        Ok(self.next_level())
    }

    fn is_low(&mut self) -> Result<bool, ()> {
        Ok(!self.next_level())
    }
}

/// A line whose reads always fault.
struct FaultLine;

impl DigitalLine for FaultLine {
    fn set_low(&mut self) -> Result<(), ()> {
        Ok(())
    }

    fn set_high(&mut self) -> Result<(), ()> {
        Ok(())
    }

    fn is_high(&mut self) -> Result<bool, ()> {
        Err(())
    }

    fn is_low(&mut self) -> Result<bool, ()> {
        Err(())
    }
}

struct NoopDelay;

impl DelayProvider for NoopDelay {
    fn delay_ms(&mut self, _ms: u32) {}

    fn delay_us(&mut self, _us: u32) {}
}

/// Appends to `script` the sample sequence a sensor produces for one byte:
/// per bit a high start marker, the sampled level, and for a 1 bit the
/// trailing return to low.
fn push_byte_script(script: &mut Vec<bool>, byte: u8) {
    for n in 0..8 {
        let bit = byte & (1 << (7 - n)) != 0;
        script.push(true);
        script.push(bit);
        if bit {
            script.push(false);
        }
    }
}

/// Appends the handshake acknowledgment (line high, then low) and the five
/// frame bytes.
fn push_frame_script(script: &mut Vec<bool>, frame: [u8; 5]) {
    script.push(true);
    script.push(false);
    for byte in frame {
        push_byte_script(script, byte);
    }
}

#[test]
fn test_read_byte() {
    // Each bit starts with a high level that marks the bit, then the sampled
    // level decides the value; a 1 bit is followed by the return to low.
    let expectations = vec![
        // Bit 1 - 0
        true, false, // Bit 2 - 1
        true, true, false, // Bit 3 - 0
        true, false, // Bit 4 - 1
        true, true, false, // Bit 5 - 0
        true, false, // Bit 6 - 1
        true, true, false, // Bit 7 - 1
        true, true, false, // Bit 8 - 1
        true, true, false,
    ];

    let mock_pin = ScriptLine::new(expectations);
    let mock_delay = NoopDelay;

    let mut dht = Dht::new(mock_pin, mock_delay);

    let result = dht.read_byte().unwrap();
    assert_eq!(result, 0b01010111);

    dht.pin.done();
}

#[test]
fn test_wait_until_state() {
    let expectations = vec![false, false, true];

    let mock_pin = ScriptLine::new(expectations);
    let mock_delay = NoopDelay;

    let mut dht = Dht::new(mock_pin, mock_delay);

    let result = dht.wait_until_state(LineLevel::High);
    assert!(result.is_ok());

    dht.pin.done();
}

#[test]
fn wait_until_state_times_out_on_stuck_line() {
    let mut dht = Dht::new(ScriptLine::stuck(false), NoopDelay);
    assert_eq!(dht.wait_until_state(LineLevel::High), Err(SensorError::Timeout));
}

#[test]
fn read_byte_times_out_when_line_never_returns_low() {
    // The first bit samples high, so the reader waits for the line to drop;
    // a line stuck high exhausts the poll budget.
    let mut dht = Dht::new(ScriptLine::stuck(true), NoopDelay);
    assert_eq!(dht.read_byte(), Err(SensorError::Timeout));
}

#[test]
fn read_byte_reports_line_fault_as_bus_error() {
    let mut dht = Dht::new(FaultLine, NoopDelay);
    assert_eq!(dht.read_byte(), Err(SensorError::BusError));
}

#[test]
fn assemble_byte_values() {
    let zeros = vec![false; 8];
    assert_eq!(assemble_byte(&zeros), 0);
    let ones = vec![true; 8];
    assert_eq!(assemble_byte(&ones), 0xFF);
    let mixed = vec![false, true, false, true, false, true, true, true];
    assert_eq!(assemble_byte(&mixed), 0b01010111);
    let msb_first = vec![true, false, false, false, false, false, false, false];
    assert_eq!(assemble_byte(&msb_first), 0x80);
}

#[test]
fn checksum_matches_values() {
    assert!(checksum_matches(1, 2, 3, 4, 10));
    assert!(checksum_matches(255, 255, 255, 255, 252));
    assert!(checksum_matches(0, 0, 0, 0, 0));
    assert!(!checksum_matches(1, 2, 3, 4, 11));
    assert!(checksum_matches(200, 100, 0, 0, 44)); // 300 % 256 == 44
    assert!(!checksum_matches(200, 100, 0, 0, 45));
}

#[test]
fn dht11_frame_decodes_whole_units() {
    let reading = dht_sensor::dht11::frame_to_reading(55, 0, 23, 0, 78).unwrap();
    assert_eq!(reading.humidity, 55000);
    assert_eq!(reading.temperature, 23000);
}

#[test]
fn dht11_frame_rejects_bad_checksum() {
    let result = dht_sensor::dht11::frame_to_reading(55, 0, 23, 0, 79);
    assert!(matches!(result, Err(SensorError::ChecksumMismatch)));
}

#[test]
fn dht22_frame_decodes_tenths() {
    // humidity 0x028C = 652 tenths, temperature 0x015E = 350 tenths
    let sum = (0x02u16 + 0x8C + 0x01 + 0x5E) % 256;
    let reading = dht_sensor::dht22::frame_to_reading(0x02, 0x8C, 0x01, 0x5E, sum as u8).unwrap();
    assert_eq!(reading.humidity, 65200);
    assert_eq!(reading.temperature, 35000);
}

#[test]
fn dht22_sign_bit_negates_temperature() {
    let sum = (0x02u16 + 0x8C + 0x81 + 0x5E) % 256;
    let reading = dht_sensor::dht22::frame_to_reading(0x02, 0x8C, 0x81, 0x5E, sum as u8).unwrap();
    assert_eq!(reading.humidity, 65200);
    assert_eq!(reading.temperature, -35000);
}

#[test]
fn dht22_sign_bit_clear_leaves_temperature_positive() {
    let sum = (0x00u16 + 0x00 + 0x01 + 0x90) % 256;
    let reading = dht_sensor::dht22::frame_to_reading(0x00, 0x00, 0x01, 0x90, sum as u8).unwrap();
    assert_eq!(reading.temperature, 40000);
}

#[test]
fn dht22_zero_temperature_boundary() {
    // Magnitude zero decodes to zero whether or not the sign bit is set.
    let reading = dht_sensor::dht22::frame_to_reading(0, 0, 0, 0, 0).unwrap();
    assert_eq!(reading.temperature, 0);
    let reading = dht_sensor::dht22::frame_to_reading(0, 0, 0x80, 0, 0x80).unwrap();
    assert_eq!(reading.temperature, 0);
}

#[test]
fn dht22_frame_rejects_bad_checksum() {
    let result = dht_sensor::dht22::frame_to_reading(0x02, 0x8C, 0x01, 0x5E, 0x00);
    assert!(matches!(result, Err(SensorError::ChecksumMismatch)));
}

#[test]
fn dht11_read_end_to_end() {
    let mut script = Vec::new();
    push_frame_script(&mut script, [55, 0, 23, 0, 78]);
    let mut driver = Dht11::new(ScriptLine::new(script), NoopDelay);
    let reading = driver.read().unwrap();
    assert_eq!(reading.humidity, 55000);
    assert_eq!(reading.temperature, 23000);
}

#[test]
fn dht22_read_end_to_end_negative_temperature() {
    let mut script = Vec::new();
    // humidity 652 tenths; temperature -350 tenths (sign-magnitude)
    let checksum = 0x02u8.wrapping_add(0x8C).wrapping_add(0x81).wrapping_add(0x5E);
    push_frame_script(&mut script, [0x02, 0x8C, 0x81, 0x5E, checksum]);
    let mut driver = Dht22::new(ScriptLine::new(script), NoopDelay);
    let reading = driver.read().unwrap();
    assert_eq!(reading.humidity, 65200);
    assert_eq!(reading.temperature, -35000);
}

#[test]
fn dht22_read_end_to_end_bad_checksum() {
    let mut script = Vec::new();
    push_frame_script(&mut script, [0x02, 0x8C, 0x81, 0x5E, 0x00]);
    let mut driver = Dht22::new(ScriptLine::new(script), NoopDelay);
    assert!(matches!(driver.read(), Err(SensorError::ChecksumMismatch)));
}

#[test]
fn dht11_read_times_out_on_stuck_line() {
    let mut driver = Dht11::new(ScriptLine::stuck(false), NoopDelay);
    assert!(matches!(driver.read(), Err(SensorError::Timeout)));
}
