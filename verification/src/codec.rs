//! Packed-BCD register decoding for the real-time-clock peripheral.
//!
//! Each register byte packs a tens digit in a subset of the high nibble and a
//! units digit in the low nibble; the remaining high bits are reserved and
//! ignored. Decoding trusts the peripheral's encoding: no range check is made
//! on the result.

use vstd::prelude::*;

verus! {

/// Bus address of the real-time-clock peripheral.
pub const RTC_ADDRESS: u8 = 0x52;

/// Register holding the minutes, packed BCD: tens in bits 4-6, units in bits 0-3.
pub const RTC_MINUTES_REGISTER: u8 = 0x01;

/// Register holding the hours, packed BCD: tens in bits 4-5, units in bits 0-3.
pub const RTC_HOURS_REGISTER: u8 = 0x02;

/// Value of a minutes register byte: tens digit from bits 4-6, units digit
/// from bits 0-3, bit 7 reserved and ignored.
pub open spec fn spec_decode_minutes(reg: u8) -> u32 {
    (((reg & 0x70) >> 4) * 10 + (reg & 0x0f)) as u32
}

/// Value of an hours register byte: tens digit from bits 4-5, units digit
/// from bits 0-3, bits 6-7 reserved and ignored.
pub open spec fn spec_decode_hours(reg: u8) -> u32 {
    (((reg & 0x30) >> 4) * 10 + (reg & 0x0f)) as u32
}

/// Decodes a raw minutes register byte into a binary value.
pub fn decode_minutes(reg: u8) -> (r: u32)
    ensures
        r == spec_decode_minutes(reg),
{
    let tens: u8 = (reg & 0x70) >> 4;
    let units: u8 = reg & 0x0f;
    proof {
        assert((reg & 0x70) >> 4 <= 7) by (bit_vector);
        assert(reg & 0x0f <= 15) by (bit_vector);
    }
    (tens * 10 + units) as u32
}

/// Decodes a raw hours register byte into a binary value.
pub fn decode_hours(reg: u8) -> (r: u32)
    ensures
        r == spec_decode_hours(reg),
{
    let tens: u8 = (reg & 0x30) >> 4;
    let units: u8 = reg & 0x0f;
    proof {
        assert((reg & 0x30) >> 4 <= 3) by (bit_vector);
        assert(reg & 0x0f <= 15) by (bit_vector);
    }
    (tens * 10 + units) as u32
}

/// The reserved high bits of either register never change the decoded value:
/// setting bit 7 of a minutes byte, or bits 6-7 of an hours byte, decodes the
/// same as the byte with them clear.
pub proof fn lemma_reserved_bits_ignored(reg: u8)
    ensures
        spec_decode_minutes(reg | 0x80) == spec_decode_minutes(reg),
        spec_decode_hours(reg | 0xc0) == spec_decode_hours(reg),
{
    assert((reg | 0x80) & 0x70 == reg & 0x70) by (bit_vector);
    assert((reg | 0x80) & 0x0f == reg & 0x0f) by (bit_vector);
    assert((reg | 0xc0) & 0x30 == reg & 0x30) by (bit_vector);
    assert((reg | 0xc0) & 0x0f == reg & 0x0f) by (bit_vector);
}

} // verus!
