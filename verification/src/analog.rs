//! Analog conversion helpers for the SPI-attached 10-bit converter: the
//! fixed command frame that starts a conversion on one channel, and the
//! extraction of the 10-bit code from the answer.

use vstd::prelude::*;

verus! {

/// Full-scale code of the converter.
pub const ADC_FULL_SCALE: u16 = 1023;

/// Reference voltage, in microvolts.
pub const ADC_REFERENCE_MICROVOLTS: u64 = 3300000;

/// Builds the three-byte command frame that asks the converter for a
/// single-ended conversion on `channel`: a start byte, the channel folded
/// into the mode byte, and a padding byte for the answer to clock out.
pub fn mcp_command(channel: u8) -> (r: Vec<u8>)
    requires
        channel < 8,
    ensures
        r@.len() == 3,
        r@[0] == 1u8,
        r@[1] == (0x80u8 | (channel << 5u8)),
        r@[2] == 0u8,
{
    let mode: u8 = 0x80u8 | (channel << 5u8);
    let mut r: Vec<u8> = Vec::new();
    r.push(1u8);
    r.push(mode);
    r.push(0u8);
    r
}

/// The 10-bit code carried by an answer frame: the low two bits of the
/// second byte are the high bits, the third byte the low bits.
pub open spec fn adc_code_of(b1: u8, b2: u8) -> int {
    (b1 % 4) * 256 + b2
}

/// Extracts the 10-bit conversion code from an answer of `bytes_read`
/// bytes.
pub fn parse_adc_reading(buf: &Vec<u8>, bytes_read: usize) -> (raw: u16)
    requires
        3 <= bytes_read <= buf@.len(),
    ensures
        raw == adc_code_of(buf@[1], buf@[2]),
        raw <= ADC_FULL_SCALE,
{
    ((buf[1] % 4) as u16) * 256 + (buf[2] as u16)
}

/// A 10-bit code scaled to microvolts against the reference voltage.
pub open spec fn microvolts_of_code(raw: int) -> int {
    raw * (ADC_REFERENCE_MICROVOLTS as int) / (ADC_FULL_SCALE as int)
}

/// Scales a conversion code to microvolts.
pub fn raw_to_microvolts(raw: u16) -> (uv: u64)
    requires
        raw <= ADC_FULL_SCALE,
    ensures
        uv == microvolts_of_code(raw as int),
        uv <= ADC_REFERENCE_MICROVOLTS,
{
    (raw as u64) * ADC_REFERENCE_MICROVOLTS / 1023
}

} // verus!
