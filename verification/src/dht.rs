//! Line-level core shared by the two single-wire sensor drivers: a bounded
//! wait on a line level, a byte reader for the timed-pulse bit protocol, and
//! the five-byte frame sequence with its additive checksum.

use vstd::prelude::*;

use crate::hal::{DelayProvider, DigitalLine, LineLevel};
use crate::SensorError;

verus! {

/// Poll budget for one wait on a line transition, with one microsecond of
/// delay between polls. When the line never reaches the wanted level within
/// this many polls, the wait gives up with `SensorError::Timeout`.
pub const MAX_LEVEL_POLLS: u32 = 100000;

/// How long the line is driven low to wake the sensor, in milliseconds.
pub const WAKE_PULSE_MS: u32 = 18;

/// The sensor's acknowledgment window after the wake pulse is released, in
/// microseconds.
pub const ACK_WINDOW_US: u32 = 48;

/// How long after a bit's start marker the line is sampled, in microseconds:
/// a pulse still high then is a 1 bit, one already low a 0 bit.
pub const SAMPLE_DELAY_US: u32 = 30;

/// The pause between two line polls while waiting on a transition, in
/// microseconds.
pub const LEVEL_POLL_INTERVAL_US: u32 = 1;

/// The value of a bit string read most-significant bit first: each new bit
/// shifts the accumulated value up by one position.
pub open spec fn byte_of_bits(bits: Seq<bool>) -> int
    decreases bits.len(),
{
    if bits.len() == 0 {
        0
    } else {
        2 * byte_of_bits(bits.drop_last()) + (if bits.last() {
            1int
        } else {
            0int
        })
    }
}

/// `2^n`, the number of values a string of `n` bits can take.
pub open spec fn bit_weight(n: nat) -> int
    decreases n,
{
    if n == 0 {
        1
    } else {
        2 * bit_weight((n - 1) as nat)
    }
}

pub proof fn lemma_bit_weight_pos(n: nat)
    ensures
        bit_weight(n) >= 1,
    decreases n,
{
    if n > 0 {
        lemma_bit_weight_pos((n - 1) as nat);
    }
}

pub proof fn lemma_bit_weight_le(m: nat, n: nat)
    requires
        m <= n,
    ensures
        bit_weight(m) <= bit_weight(n),
    decreases n,
{
    lemma_bit_weight_pos(m);
    if m < n {
        lemma_bit_weight_le(m, (n - 1) as nat);
    }
}

/// A string of `n` bits encodes a value below `2^n`.
pub proof fn lemma_byte_of_bits_bound(bits: Seq<bool>)
    ensures
        0 <= byte_of_bits(bits) < bit_weight(bits.len()),
    decreases bits.len(),
{
    if bits.len() > 0 {
        lemma_byte_of_bits_bound(bits.drop_last());
    }
}

/// The numeric weight of one bit.
pub open spec fn bit_value(bit: bool) -> int {
    if bit {
        1
    } else {
        0
    }
}

/// Spelled out for a full byte: the first bit read carries weight 128
/// (bit 7, the most significant), the last carries weight 1.
pub proof fn lemma_byte_of_bits_weights(bits: Seq<bool>)
    requires
        bits.len() == 8,
    ensures
        byte_of_bits(bits) == 128 * bit_value(bits[0]) + 64 * bit_value(bits[1]) + 32 * bit_value(
            bits[2],
        ) + 16 * bit_value(bits[3]) + 8 * bit_value(bits[4]) + 4 * bit_value(bits[5]) + 2
            * bit_value(bits[6]) + bit_value(bits[7]),
{
    reveal_with_fuel(byte_of_bits, 9);
}

/// Combines eight sampled bits into a byte, the first sample landing on bit 7
/// (the most significant bit).
pub fn assemble_byte(bits: &Vec<bool>) -> (r: u8)
    requires
        bits@.len() == 8,
    ensures
        r as int == byte_of_bits(bits@),
{
    let mut byte: u16 = 0;
    let mut i: usize = 0;
    while i < 8
        invariant
            i <= 8,
            bits@.len() == 8,
            byte as int == byte_of_bits(bits@.take(i as int)),
            (byte as int) < bit_weight(i as nat),
        decreases 8 - i,
    {
        proof {
            assert(bits@.take(i + 1).drop_last() =~= bits@.take(i as int));
            assert(bits@.take(i + 1).last() == bits@[i as int]);
            lemma_byte_of_bits_bound(bits@.take(i + 1));
            lemma_bit_weight_le((i + 1) as nat, 8);
            reveal_with_fuel(bit_weight, 9);
        }
        let bit: u16 = if bits[i] {
            1
        } else {
            0
        };
        byte = 2 * byte + bit;
        i = i + 1;
    }
    proof {
        assert(bits@.take(8) =~= bits@);
        reveal_with_fuel(bit_weight, 9);
        assert(bit_weight(8) == 256);
    }
    byte as u8
}

/// The additive frame checksum: the sum of the four payload bytes, kept to
/// eight bits. Wrapping 8-bit addition computes the same value.
pub open spec fn checksum_of(b0: u8, b1: u8, b2: u8, b3: u8) -> int {
    (b0 + b1 + b2 + b3) % 256
}

/// Decides whether `expected` is the additive checksum of the payload.
pub fn checksum_matches(b0: u8, b1: u8, b2: u8, b3: u8, expected: u8) -> (r: bool)
    ensures
        r == (expected as int == checksum_of(b0, b1, b2, b3)),
{
    let sum: u16 = (b0 as u16 + b1 as u16 + b2 as u16 + b3 as u16) % 256;
    sum == expected as u16
}

/// Common base for the single-wire sensor drivers: one open-drain line and
/// one delay source, owned for the driver's lifetime.
pub struct Dht<L: DigitalLine, D: DelayProvider> {
    pub pin: L,
    pub delay: D,
}

impl<L: DigitalLine, D: DelayProvider> Dht<L, D> {
    /// Takes ownership of the line and the delay source; the result drives
    /// exactly the handles it was given.
    pub fn new(pin: L, delay: D) -> (r: Self)
        ensures
            r.pin == pin,
            r.delay == delay,
    {
        Self { pin, delay }
    }

    /// Polls the line, sleeping one microsecond between polls, until it
    /// reaches `state`. The wait is bounded by `MAX_LEVEL_POLLS`; exhausting
    /// the budget yields `Timeout`, and a line fault yields `BusError`.
    pub fn wait_until_state(&mut self, state: LineLevel) -> (r: Result<(), SensorError>)
        ensures
            r matches Err(e) ==> e == SensorError::Timeout || e == SensorError::BusError,
    {
        let mut polls: u32 = 0;
        while polls < MAX_LEVEL_POLLS
            invariant
                polls <= MAX_LEVEL_POLLS,
            decreases MAX_LEVEL_POLLS - polls,
        {
            let sample = match state {
                LineLevel::Low => self.pin.is_low(),
                LineLevel::High => self.pin.is_high(),
            };
            match sample {
                Err(_) => {
                    return Err(SensorError::BusError);
                },
                Ok(true) => {
                    return Ok(());
                },
                Ok(false) => {},
            }
            self.delay.delay_us(LEVEL_POLL_INTERVAL_US);
            polls = polls + 1;
        }
        Err(SensorError::Timeout)
    }

    /// Reads one byte, most significant bit first. Per bit: wait for the line
    /// to go high, sample after a fixed 30 microsecond delay (high means 1),
    /// and after a 1 bit wait for the line to return low.
    pub fn read_byte(&mut self) -> (r: Result<u8, SensorError>)
        ensures
            r matches Err(e) ==> e == SensorError::Timeout || e == SensorError::BusError,
    {
        let mut bits: Vec<bool> = Vec::new();
        let mut n: usize = 0;
        while n < 8
            invariant
                n <= 8,
                bits@.len() == n,
            decreases 8 - n,
        {
            match self.wait_until_state(LineLevel::High) {
                Ok(()) => {},
                Err(e) => {
                    return Err(e);
                },
            }
            self.delay.delay_us(SAMPLE_DELAY_US);
            let is_bit_1 = match self.pin.is_high() {
                Ok(level) => level,
                Err(_) => {
                    return Err(SensorError::BusError);
                },
            };
            bits.push(is_bit_1);
            if is_bit_1 {
                match self.wait_until_state(LineLevel::Low) {
                    Ok(()) => {},
                    Err(e) => {
                        return Err(e);
                    },
                }
            }
            n = n + 1;
        }
        Ok(assemble_byte(&bits))
    }

    /// Runs the wake handshake and pulls one five-byte frame
    /// `(b0, b1, b2, b3, checksum)` off the line. The checksum is not judged
    /// here; the sensor-specific drivers validate and convert the payload.
    pub fn read_frame(&mut self) -> (r: Result<(u8, u8, u8, u8, u8), SensorError>)
        ensures
            r matches Err(e) ==> e == SensorError::Timeout || e == SensorError::BusError,
    {
        // Wake pulse: drive the line low, then release it.
        match self.pin.set_low() {
            Ok(()) => {},
            Err(_) => {
                return Err(SensorError::BusError);
            },
        }
        self.delay.delay_ms(WAKE_PULSE_MS);
        match self.pin.set_high() {
            Ok(()) => {},
            Err(_) => {
                return Err(SensorError::BusError);
            },
        }

        // Give the sensor its acknowledgment window.
        self.delay.delay_us(ACK_WINDOW_US);

        // Consume the sensor's own acknowledgment pulses.
        match self.wait_until_state(LineLevel::High) {
            Ok(()) => {},
            Err(e) => {
                return Err(e);
            },
        }
        match self.wait_until_state(LineLevel::Low) {
            Ok(()) => {},
            Err(e) => {
                return Err(e);
            },
        }

        let b0 = match self.read_byte() {
            Ok(b) => b,
            Err(e) => {
                return Err(e);
            },
        };
        let b1 = match self.read_byte() {
            Ok(b) => b,
            Err(e) => {
                return Err(e);
            },
        };
        let b2 = match self.read_byte() {
            Ok(b) => b,
            Err(e) => {
                return Err(e);
            },
        };
        let b3 = match self.read_byte() {
            Ok(b) => b,
            Err(e) => {
                return Err(e);
            },
        };
        let checksum = match self.read_byte() {
            Ok(b) => b,
            Err(e) => {
                return Err(e);
            },
        };
        Ok((b0, b1, b2, b3, checksum))
    }
}

} // verus!
