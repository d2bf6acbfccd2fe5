//! Raw sensor readings: a big-endian 16 bit two's complement number.
use vstd::prelude::*;

verus! {

/// The signed value of the 16 bit word whose high byte is `hi` and low byte
/// is `lo`, read as two's complement.
pub open spec fn spec_sample(hi: u8, lo: u8) -> int {
    if hi < 128 {
        hi * 256 + lo
    } else {
        hi * 256 + lo - 65536
    }
}

/// The raw reading in the output registers `hi` (`*_OUT_H`) and `lo`
/// (`*_OUT_L`).
pub fn sample_from_bytes(hi: u8, lo: u8) -> (r: i16)
    ensures
        r as int == spec_sample(hi, lo),
{
    let word: u16 = ((hi as u16) << 8u16) | (lo as u16);
    assert(word == hi as u16 * 256 + lo as u16) by (bit_vector)
        requires
            word == ((hi as u16) << 8u16) | (lo as u16),
    ;
    let r = word as i16;
    assert(r as int == (if word < 32768 {
        word as int
    } else {
        word - 65536
    })) by (bit_vector)
        requires
            r == word as i16,
    ;
    r
}

/// The high byte of a 16 bit word (`to_be_bytes()[0]`).
pub open spec fn spec_high_byte(w: u16) -> u8 {
    (w / 256) as u8
}

/// The low byte of a 16 bit word (`to_be_bytes()[1]`).
pub open spec fn spec_low_byte(w: u16) -> u8 {
    (w % 256) as u8
}

/// The big-endian bytes of `w`: high byte first.
pub fn be_bytes(w: u16) -> (r: (u8, u8))
    ensures
        r.0 == spec_high_byte(w),
        r.1 == spec_low_byte(w),
{
    ((w / 256) as u8, (w % 256) as u8)
}

} // verus!
