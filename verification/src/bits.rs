//! Bytes and words: how two bytes make a word, and the bit patterns of the
//! displacement byte.

use vstd::prelude::*;

verus! {

/// The word whose high byte is `high` and whose low byte is `low`, that is
/// `(high << 8) | low`.
pub open spec fn spec_join(high: u8, low: u8) -> u16 {
    (high * 0x100 + low) as u16
}

/// The high byte of a word, `w >> 8`.
pub open spec fn spec_high_byte(w: u16) -> u8 {
    (w / 0x100) as u8
}

/// The low byte of a word, `w & 0xFF`.
pub open spec fn spec_low_byte(w: u16) -> u8 {
    (w % 0x100) as u8
}

/// The number that a byte stands for when it is read in two's complement.
pub open spec fn spec_signed(raw: u8) -> i8 {
    if raw < 0x80 {
        raw as i8
    } else {
        (raw - 0x100) as i8
    }
}

/// Whether bit `n` of `x` is set. Bit 0 is the least significant one.
pub open spec fn spec_bit(x: u8, n: u8) -> bool {
    x & (1u8 << n) != 0
}

/// Puts `high` above `low`.
pub fn join(high: u8, low: u8) -> (w: u16)
    ensures
        w == spec_join(high, low),
{
    let w = ((high as u16) << 8) | (low as u16);
    assert(w == high as u16 * 0x100 + low as u16) by (bit_vector)
        requires
            w == ((high as u16) << 8) | (low as u16),
    ;
    w
}

/// Takes the high byte of a word.
pub fn high_byte(w: u16) -> (b: u8)
    ensures
        b == spec_high_byte(w),
{
    let high = (w & 0xFF00) >> 8;
    assert(high == w / 0x100) by (bit_vector)
        requires
            high == (w & 0xFF00) >> 8,
    ;
    high as u8
}

/// Takes the low byte of a word.
pub fn low_byte(w: u16) -> (b: u8)
    ensures
        b == spec_low_byte(w),
{
    let low = w & 0x00FF;
    assert(low == w % 0x100) by (bit_vector)
        requires
            low == w & 0x00FF,
    ;
    low as u8
}

/// Reads a byte as a signed displacement.
pub fn signed(raw: u8) -> (d: i8)
    ensures
        d == spec_signed(raw),
{
    if raw < 0x80 {
        raw as i8
    } else {
        (raw as i16 - 0x100) as i8
    }
}

/// The bytes of a joined word are the bytes it was joined from.
pub proof fn lemma_bytes_of_join(high: u8, low: u8)
    ensures
        spec_high_byte(spec_join(high, low)) == high,
        spec_low_byte(spec_join(high, low)) == low,
{
}

} // verus!
