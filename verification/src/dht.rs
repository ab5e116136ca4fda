//! DHT temperature/humidity protocol decoding.
//!
//! The sensor answers a handshake with 40 pulse-width pairs. A bit is 1
//! exactly when its high pulse lasts longer than a fixed threshold. Bits are
//! assembled MSB-first into five bytes: humidity high, humidity low,
//! temperature high, temperature low, checksum. The checksum byte must equal
//! the sum of the first four bytes; a sum that does not fit in one byte can
//! never equal it, so it is rejected the same way as a plain mismatch.
//! Temperatures and humidities are carried in tenths of a unit, read as
//! big-endian 16-bit two's-complement values.

use vstd::prelude::*;
use crate::process::{DataPoint, DaytimeData, point_update_dht};

verus! {

/// Busy-wait iterations allowed before a missing line transition counts as a
/// timeout.
pub const MAX_CLOCKS: u32 = 32000;

/// A high pulse strictly longer than this many microseconds encodes a 1 bit.
pub const BIT_THRESHOLD_MICROS: u128 = 40;

/// Number of data bits in one sensor answer.
pub const DATA_BITS: usize = 40;

/// Sentinel stored in tenths fields after a failed read: no real reading is
/// this value, and validity is judged by the timestamp, never by it.
pub const INVALID_TENTHS: i32 = -9990;

/// Outcome of one protocol exchange, as the sensor driver reports it.
#[derive(Debug, Clone, Copy, PartialEq, Eq, Structural)]
pub enum DHTState {
    Okay,
    ErrorChecksum,
    ErrorTimeout,
    InvalidValue,
}

/// The integer code each outcome travels under.
pub open spec fn state_code(s: DHTState) -> int {
    match s {
        DHTState::Okay => 0,
        DHTState::ErrorChecksum => -1,
        DHTState::ErrorTimeout => -2,
        DHTState::InvalidValue => -999,
    }
}

impl DHTState {
    /// Short human-readable tag for an outcome.
    pub fn get_state_str(state: Self) -> (r: String)
        ensures
            state == DHTState::Okay ==> r@ == "Ok"@,
            state == DHTState::ErrorChecksum ==> r@ == "Checksum"@,
            state == DHTState::ErrorTimeout ==> r@ == "Timeout"@,
            state == DHTState::InvalidValue ==> r@ == "Invalid Value"@,
    {
        match state {
            DHTState::Okay => "Ok".to_owned(),
            DHTState::ErrorChecksum => "Checksum".to_owned(),
            DHTState::ErrorTimeout => "Timeout".to_owned(),
            DHTState::InvalidValue => "Invalid Value".to_owned(),
        }
    }

    /// Maps an integer code back to its outcome; unknown codes are invalid.
    pub fn get_state_from_code(code: i32) -> (r: Self)
        ensures
            code == 0 ==> r == DHTState::Okay,
            code == -1 ==> r == DHTState::ErrorChecksum,
            code == -2 ==> r == DHTState::ErrorTimeout,
            code != 0 && code != -1 && code != -2 ==> r == DHTState::InvalidValue,
    {
        if code == 0 {
            DHTState::Okay
        } else if code == -1 {
            DHTState::ErrorChecksum
        } else if code == -2 {
            DHTState::ErrorTimeout
        } else {
            DHTState::InvalidValue
        }
    }

    /// The integer code of this outcome.
    pub fn get_code(&self) -> (r: i32)
        ensures
            r == state_code(*self),
    {
        match self {
            DHTState::Okay => 0,
            DHTState::ErrorChecksum => -1,
            DHTState::ErrorTimeout => -2,
            DHTState::InvalidValue => -999,
        }
    }
}

/// Reads a 16-bit big-endian field as a two's-complement value.
pub open spec fn as_signed16(v: int) -> int {
    if v < 32768 {
        v
    } else {
        v - 65536
    }
}

/// The mathematical sum of the four data bytes of a frame.
pub open spec fn data_sum(data: Seq<u8>) -> int {
    data[0] + data[1] + data[2] + data[3]
}

/// Humidity of a frame, in tenths of a percent.
pub open spec fn humidity_of(data: Seq<u8>) -> int {
    as_signed16(data[0] * 256 + data[1])
}

/// Temperature of a frame, in tenths of a degree Celsius.
pub open spec fn temperature_of(data: Seq<u8>) -> int {
    as_signed16(data[2] * 256 + data[3])
}

/// Checks the checksum of a 5-byte frame and decodes humidity and
/// temperature, both in tenths. Succeeds exactly when the sum of the first
/// four bytes equals the fifth; a sum too large for one byte can equal no
/// byte, so such frames fail like any other mismatch.
pub fn decode_bytes(data: &Vec<u8>) -> (r: Result<(i32, i32), DHTState>)
    requires
        data@.len() == 5,
    ensures
        match r {
            Ok(ht) => {
                &&& data_sum(data@) == data@[4]
                &&& ht.0 == humidity_of(data@)
                &&& ht.1 == temperature_of(data@)
            },
            Err(e) => {
                &&& data_sum(data@) != data@[4]
                &&& e == DHTState::ErrorChecksum
            },
        },
{
    let sum: u16 = data[0] as u16 + data[1] as u16 + data[2] as u16 + data[3] as u16;
    if sum != data[4] as u16 {
        return Err(DHTState::ErrorChecksum);
    }
    let hv: u16 = (data[0] as u16) * 256 + (data[1] as u16);
    let tv: u16 = (data[2] as u16) * 256 + (data[3] as u16);
    let h: i32 = if hv < 32768 { hv as i32 } else { hv as i32 - 65536 };
    let t: i32 = if tv < 32768 { tv as i32 } else { tv as i32 - 65536 };
    Ok((h, t))
}

/// For frame sums that fit in one byte, matching the checksum byte modulo
/// 256 is the same as matching it outright, so such frames decode exactly
/// when their truncated sum equals the checksum byte. A sum too large for
/// one byte always fails, even where it would match modulo 256.
pub proof fn lemma_checksum_mod(data: Seq<u8>)
    requires
        data.len() == 5,
        data_sum(data) < 256,
    ensures
        (data_sum(data) % 256 == data[4]) <==> (data_sum(data) == data[4]),
{
}

/// The value of a bit string read MSB-first.
pub open spec fn bits_value(bits: Seq<bool>) -> int
    decreases bits.len(),
{
    if bits.len() == 0 {
        0
    } else {
        bits_value(bits.drop_last()) * 2 + (if bits.last() { 1int } else { 0int })
    }
}

/// The byte at position `j` of a frame assembled MSB-first from `bits`.
pub open spec fn byte_from_bits(bits: Seq<bool>, j: int) -> int {
    bits_value(bits.subrange(8 * j, 8 * j + 8))
}

/// Packs 40 pulse-length flags into the five frame bytes, MSB-first.
pub fn assemble_bytes(bits: &Vec<bool>) -> (data: Vec<u8>)
    requires
        bits@.len() == DATA_BITS,
    ensures
        data@.len() == 5,
        forall|j: int| 0 <= j < 5 ==> data@[j] == byte_from_bits(bits@, j),
{
    let mut data: Vec<u8> = Vec::new();
    let mut j: usize = 0;
    while j < 5
        invariant
            bits@.len() == DATA_BITS,
            j <= 5,
            data@.len() == j,
            forall|i: int| 0 <= i < j ==> data@[i] == byte_from_bits(bits@, i),
        decreases 5 - j,
    {
        let mut acc: u8 = 0;
        let mut k: usize = 0;
        proof {
            assert(bits@.subrange(8 * j as int, 8 * j as int) =~= Seq::<bool>::empty());
            vstd::arithmetic::power2::lemma2_to64();
        }
        while k < 8
            invariant
                bits@.len() == DATA_BITS,
                j < 5,
                k <= 8,
                acc == bits_value(bits@.subrange(8 * j as int, 8 * j as int + k as int)),
                acc < vstd::arithmetic::power2::pow2(k as nat),
            decreases 8 - k,
        {
            proof {
                vstd::arithmetic::power2::lemma2_to64();
                if k < 7 {
                    vstd::arithmetic::power2::lemma_pow2_strictly_increases(k as nat, 7);
                }
                vstd::arithmetic::power2::lemma_pow2_unfold((k + 1) as nat);
                let sub = bits@.subrange(8 * j as int, 8 * j as int + k as int + 1);
                assert(sub.drop_last() =~= bits@.subrange(8 * j as int, 8 * j as int + k as int));
                assert(sub.last() == bits@[8 * j as int + k as int]);
            }
            let b: u8 = if bits[8 * j + k] { 1 } else { 0 };
            acc = acc * 2 + b;
            k = k + 1;
        }
        data.push(acc);
        j = j + 1;
    }
    data
}

/// Busy-waits until the line leaves the low level; false means the bounded
/// iteration budget ran out first.
fn wait_while_low(pin: &rppal::gpio::IoPin) -> (ok: bool) {
    let mut count: u32 = MAX_CLOCKS;
    while pin.is_low()
        invariant
            1 <= count <= MAX_CLOCKS,
        decreases count,
    {
        count = count - 1;
        if count == 0 {
            return false;
        }
    }
    true
}

/// Busy-waits until the line leaves the high level; false means the bounded
/// iteration budget ran out first.
fn wait_while_high(pin: &rppal::gpio::IoPin) -> (ok: bool) {
    let mut count: u32 = MAX_CLOCKS;
    while pin.is_high()
        invariant
            1 <= count <= MAX_CLOCKS,
        decreases count,
    {
        count = count - 1;
        if count == 0 {
            return false;
        }
    }
    true
}

/// Measures the 40 pulse pairs that follow the handshake and flags, for each
/// bit, whether its high pulse exceeded the threshold. Every wait is bounded
/// by an iteration count, never by a wall-clock sleep; a missing transition
/// yields None.
pub fn read_pulse_flags(pin: &rppal::gpio::IoPin) -> (r: Option<Vec<bool>>)
    ensures
        r matches Some(bits) ==> bits@.len() == DATA_BITS,
{
    if !wait_while_low(pin) {
        return None;
    }
    if !wait_while_high(pin) {
        return None;
    }
    let mut bits: Vec<bool> = Vec::new();
    let mut i: usize = 0;
    while i < DATA_BITS
        invariant
            i <= DATA_BITS,
            bits@.len() == i,
        decreases DATA_BITS - i,
    {
        if !wait_while_low(pin) {
            return None;
        }
        let start = std::time::Instant::now();
        if !wait_while_high(pin) {
            return None;
        }
        let micros: u128 = start.elapsed().as_micros();
        bits.push(micros > BIT_THRESHOLD_MICROS);
        i = i + 1;
    }
    Some(bits)
}

/// One decoded temperature/humidity reading, in tenths, with the timestamp
/// of the successful sample. A missing timestamp is the sole validity flag.
#[derive(Debug, Clone, Copy, PartialEq, Eq, Structural)]
pub struct DHTData {
    pub temperature_tenths: i32,
    pub humidity_tenths: i32,
    pub last_updated: Option<u64>,
}

/// Truncating division, the way the hardware integer divide rounds.
pub open spec fn trunc_div(a: int, b: int) -> int {
    if a >= 0 {
        a / b
    } else {
        -((-a) / b)
    }
}

/// Celsius tenths to Fahrenheit tenths.
pub open spec fn fahrenheit_tenths(c: int) -> int {
    trunc_div(c * 9, 5) + 320
}

impl DHTData {
    pub fn new(temp: i32, humidity: i32, last_updated: Option<u64>) -> (r: Self)
        ensures
            r.temperature_tenths == temp,
            r.humidity_tenths == humidity,
            r.last_updated == last_updated,
    {
        Self { temperature_tenths: temp, humidity_tenths: humidity, last_updated }
    }

    /// A reading is valid exactly when it carries a timestamp.
    pub fn is_valid(&self) -> (r: bool)
        ensures
            r == (self.last_updated is Some),
    {
        self.last_updated.is_some()
    }

    pub fn get_temp_celsius(&self) -> (r: i32)
        ensures
            r == self.temperature_tenths,
    {
        self.temperature_tenths
    }

    /// The reading converted to tenths of a degree Fahrenheit.
    pub fn get_temp_farenheit(&self) -> (r: i64)
        ensures
            r == fahrenheit_tenths(self.temperature_tenths as int),
    {
        let n: i64 = (self.temperature_tenths as i64) * 9;
        let q: i64 = if n >= 0 {
            ((n as u64) / 5) as i64
        } else {
            -((((-n) as u64) / 5) as i64)
        };
        q + 320
    }

    pub fn get_humidity(&self) -> (r: i32)
        ensures
            r == self.humidity_tenths,
    {
        self.humidity_tenths
    }

    pub fn get_last_updated(&self) -> (r: Option<u64>)
        ensures
            r == self.last_updated,
    {
        self.last_updated
    }
}

/// The temperature/humidity sensor driver: the last values it decoded, in
/// tenths, and the timestamp of the last success.
pub struct DHT {
    pub humidity_tenths: i32,
    pub temperature_tenths: i32,
    pub last_update: Option<u64>,
}

impl DHT {
    pub fn new() -> (r: Self)
        ensures
            r.humidity_tenths == 0,
            r.temperature_tenths == 0,
            r.last_update is None,
    {
        Self { humidity_tenths: 0, temperature_tenths: 0, last_update: None }
    }

    /// Runs one protocol exchange on an already-handshaken line: measures
    /// the pulses, assembles the frame, checks it and stores the decoded
    /// tenths. Returns the outcome code; on any failure the stored reading
    /// is left as it was.
    pub fn read_sensor(&mut self, pin: &rppal::gpio::IoPin) -> (code: i32)
        ensures
            code == 0 || code == -1 || code == -2,
            code != 0 ==> *final(self) == *old(self),
            final(self).last_update == old(self).last_update,
    {
        match read_pulse_flags(pin) {
            None => DHTState::ErrorTimeout.get_code(),
            Some(bits) => {
                let data = assemble_bytes(&bits);
                match decode_bytes(&data) {
                    Err(e) => e.get_code(),
                    Ok(ht) => {
                        self.humidity_tenths = ht.0;
                        self.temperature_tenths = ht.1;
                        0
                    },
                }
            },
        }
    }

    /// One scheduled sample: on success records the time of the reading; on
    /// failure stores the invalid-value sentinels and reports the error
    /// code, which is the timeout or the checksum code and nothing else.
    pub fn update(&mut self, pin: &rppal::gpio::IoPin, now_ms: u64) -> (r: Result<(), i32>)
        ensures
            match r {
                Ok(()) => final(self).last_update == Some(now_ms),
                Err(code) => {
                    &&& code == -1 || code == -2
                    &&& final(self).humidity_tenths == INVALID_TENTHS
                    &&& final(self).temperature_tenths == INVALID_TENTHS
                    &&& final(self).last_update == old(self).last_update
                },
            },
    {
        let code = self.read_sensor(pin);
        if code != 0 {
            self.humidity_tenths = INVALID_TENTHS;
            self.temperature_tenths = INVALID_TENTHS;
            return Err(code);
        }
        self.last_update = Some(now_ms);
        Ok(())
    }

    /// The current reading as an immutable value, for building a payload.
    pub fn get_data(&self) -> (r: DHTData)
        ensures
            r.temperature_tenths == self.temperature_tenths,
            r.humidity_tenths == self.humidity_tenths,
            r.last_updated == self.last_update,
    {
        DHTData::new(self.temperature_tenths, self.humidity_tenths, self.last_update)
    }
}

/// A temperature/humidity payload: applying it replaces the snapshot's
/// reading and leaves the day rollup untouched.
#[derive(Debug, Clone, Copy, PartialEq, Eq, Structural)]
pub struct DHTPayload {
    pub data: DHTData,
}

impl DHTPayload {
    pub fn new(temp: i32, humidity: i32, last_updated: Option<u64>) -> (r: Self)
        ensures
            r.data.temperature_tenths == temp,
            r.data.humidity_tenths == humidity,
            r.data.last_updated == last_updated,
    {
        Self { data: DHTData::new(temp, humidity, last_updated) }
    }

    /// Stores the reading as the snapshot's current temperature and
    /// humidity; the day rollup keeps no temperature statistics here.
    pub fn update_data_fields(&self, data: &mut DataPoint, daytime_info: &mut DaytimeData)
        ensures
            *final(data) == point_update_dht(*old(data), self.data),
            *final(daytime_info) == *old(daytime_info),
    {
        data.update_dht(self.data);
    }
}

/// Bounded diagnostic mode: counts successes and failures over a fixed
/// number of iterations, after which the caller emits the exit signal.
pub struct DHTSelfTest {
    pub success_counter: u32,
    pub error_counter: u32,
    pub limit: u32,
}

impl DHTSelfTest {
    pub fn new(limit: u32) -> (r: Self)
        ensures
            r.success_counter == 0,
            r.error_counter == 0,
            r.limit == limit,
    {
        Self { success_counter: 0, error_counter: 0, limit }
    }

    /// Records one iteration's outcome; true once the run is complete.
    pub fn record(&mut self, ok: bool) -> (done: bool)
        requires
            old(self).success_counter + old(self).error_counter < old(self).limit,
        ensures
            final(self).limit == old(self).limit,
            ok ==> final(self).success_counter == old(self).success_counter + 1
                && final(self).error_counter == old(self).error_counter,
            !ok ==> final(self).error_counter == old(self).error_counter + 1
                && final(self).success_counter == old(self).success_counter,
            done == (final(self).success_counter + final(self).error_counter
                == final(self).limit),
    {
        if ok {
            self.success_counter = self.success_counter + 1;
        } else {
            self.error_counter = self.error_counter + 1;
        }
        self.success_counter + self.error_counter == self.limit
    }
}

} // verus!
