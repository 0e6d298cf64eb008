//! Decoding of the 32-bit frame of a MAX31855 thermocouple converter.
use vstd::prelude::*;
use crate::errors::ErrorType;

verus! {

/// The frame read as a big-endian 32-bit word.
pub open spec fn frame_word(frame: [u8; 4]) -> int {
    frame[0] as int * 0x100_0000 + frame[1] as int * 0x1_0000 + frame[2] as int * 0x100
        + frame[3] as int
}

/// The general fault flag (bit 16) is set.
pub open spec fn fault_flag(w: int) -> bool {
    (w / 0x1_0000) % 2 == 1
}

/// The specific fault bits (bits 0 to 2).
pub open spec fn fault_bits(w: int) -> int {
    w % 8
}

/// The 14-bit temperature field (bits 18 to 31) read as a two's-complement
/// number.
pub open spec fn signed_temperature_field(w: int) -> int {
    let raw = w / 0x4_0000;
    if raw >= 0x2000 {
        raw - 0x4000
    } else {
        raw
    }
}

/// What a frame says: the hot-junction temperature in quarter degrees
/// Celsius (bits 18 to 31, a 14-bit signed value), or the fault it reports.
pub open spec fn decoded_frame(frame: [u8; 4]) -> Result<i32, ErrorType> {
    let w = frame_word(frame);
    if fault_flag(w) || fault_bits(w) != 0 {
        Err(
            if fault_bits(w) == 1 {
                ErrorType::NoThermocouple
            } else if fault_bits(w) == 2 {
                ErrorType::ThermocoupleShortGnd
            } else if fault_bits(w) == 4 {
                ErrorType::ThermocoupleShortVcc
            } else {
                ErrorType::ThermocoupleIssue
            },
        )
    } else {
        Ok(signed_temperature_field(w) as i32)
    }
}

/// Decodes a frame into the temperature in quarter degrees Celsius, or the
/// fault the converter reports.
pub fn decode_thermocouple_frame(frame: [u8; 4]) -> (r: Result<i32, ErrorType>)
    ensures
        r == decoded_frame(frame),
        r matches Ok(q) ==> -0x2000 <= q < 0x2000,
{
    let b0: u32 = frame[0] as u32;
    let b1: u32 = frame[1] as u32;
    let b2: u32 = frame[2] as u32;
    let b3: u32 = frame[3] as u32;
    let data: u32 = (b0 << 24u32) | (b1 << 16u32) | (b2 << 8u32) | b3;
    proof {
        assert(data == b0 * 0x100_0000 + b1 * 0x1_0000 + b2 * 0x100 + b3) by (bit_vector)
            requires
                b0 < 256 && b1 < 256 && b2 < 256 && b3 < 256,
                data == (b0 << 24u32) | (b1 << 16u32) | (b2 << 8u32) | b3,
        ;
        assert(data as int == frame_word(frame));
        assert(((data & 0x0001_0007) != 0) == ((data / 0x1_0000) % 2 == 1 || data % 8 != 0))
            by (bit_vector);
        assert((data & 0x0001_0007) & 0x7 == data % 8) by (bit_vector);
        assert(((data & 0xfffc_0000) >> 18u32) == data / 0x4_0000) by (bit_vector);
    }
    let error_data: u32 = data & 0x0001_0007;
    if error_data > 0 {
        match error_data & 0x0000_0007 {
            1 => Err(ErrorType::NoThermocouple),
            2 => Err(ErrorType::ThermocoupleShortGnd),
            4 => Err(ErrorType::ThermocoupleShortVcc),
            _ => Err(ErrorType::ThermocoupleIssue),
        }
    } else {
        let mut temp_data: u32 = data & 0xfffc_0000;
        temp_data = temp_data >> 18u32;
        proof {
            assert(temp_data < 0x4000) by (bit_vector)
                requires
                    temp_data == ((data & 0xfffc_0000) >> 18u32),
            ;
        }
        if temp_data >= 0x2000 {
            Ok(temp_data as i32 - 0x4000)
        } else {
            Ok(temp_data as i32)
        }
    }
}

/// The whole degrees Celsius of a reading in quarter degrees, as an
/// unsigned number: rounded towards zero, and 0 below zero.
pub open spec fn spec_whole_degrees(quarters: i32) -> u32 {
    if quarters < 0 {
        0
    } else {
        (quarters / 4) as u32
    }
}

/// The whole degrees Celsius of a reading in quarter degrees, as an
/// unsigned number: rounded towards zero, and 0 below zero.
pub fn whole_degrees(quarters: i32) -> (d: u32)
    ensures
        d == spec_whole_degrees(quarters),
{
    if quarters < 0 {
        0
    } else {
        (quarters / 4) as u32
    }
}

} // verus!
