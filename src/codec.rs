//! Decoding of the two-byte frames that the device sends.
use vstd::prelude::*;

verus! {

/// The value a frame stands for: byte 0 is the low byte, byte 1 the high byte.
pub open spec fn frame_value(lo: u8, hi: u8) -> int {
    hi as int * 256 + lo as int
}

/// Joins a little-endian two-byte frame into one sample.
pub fn parse_buffer_data(buffer: &[u8; 2]) -> (r: u16)
    ensures
        r as int == frame_value(buffer[0], buffer[1]),
{
    let lo: u8 = buffer[0];
    let hi: u8 = buffer[1];
    let high: u16 = (hi as u16) << 8u16;
    assert(high == (hi as u16) * 256) by (bit_vector)
        requires
            high == (hi as u16) << 8u16,
            hi <= 255,
    ;
    high + lo as u16
}

} // verus!
