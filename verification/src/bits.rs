//! Byte/word packing helpers shared by the register file, the stack
//! and the bus: a 16-bit quantity is always the pair of its high and
//! low bytes.

use vstd::prelude::*;

verus! {

/// The high byte of a 16-bit word.
pub open spec fn spec_hi(w: u16) -> u8 {
    (w >> 8) as u8
}

/// The low byte of a 16-bit word.
pub open spec fn spec_lo(w: u16) -> u8 {
    (w & 0xFF) as u8
}

/// The 16-bit word packed from a high and a low byte.
pub open spec fn spec_word(hi: u8, lo: u8) -> u16 {
    (((hi as u16) << 8) | (lo as u16)) as u16
}

/// Splitting a word into bytes and repacking them is the identity,
/// and packing two bytes then splitting returns the same bytes.
pub proof fn lemma_word_bytes(w: u16, hi: u8, lo: u8)
    ensures
        spec_word(spec_hi(w), spec_lo(w)) == w,
        spec_hi(spec_word(hi, lo)) == hi,
        spec_lo(spec_word(hi, lo)) == lo,
{
    assert((((((w >> 8) as u8) as u16) << 8) | (((w & 0xFF) as u8) as u16)) == w) by (bit_vector);
    assert(((((hi as u16) << 8) | (lo as u16)) >> 8) as u8 == hi) by (bit_vector);
    assert(((((hi as u16) << 8) | (lo as u16)) & 0xFF) as u8 == lo) by (bit_vector);
}

/// Extract the high byte of a word.
pub fn hi(w: u16) -> (r: u8)
    ensures
        r == spec_hi(w),
{
    (w >> 8) as u8
}

/// Extract the low byte of a word.
pub fn lo(w: u16) -> (r: u8)
    ensures
        r == spec_lo(w),
{
    (w & 0xFF) as u8
}

/// Pack a high and a low byte into a word.
pub fn word(hi: u8, lo: u8) -> (r: u16)
    ensures
        r == spec_word(hi, lo),
{
    ((hi as u16) << 8) | (lo as u16)
}

} // verus!
