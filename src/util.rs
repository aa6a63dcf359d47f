//! Byte/word helpers for the 16-bit register pairs.
use vstd::prelude::*;

verus! {

/// The 16-bit value whose high byte is `hi` and whose low byte is `lo`.
pub open spec fn word(hi: u8, lo: u8) -> u16 {
    (hi as int * 256 + lo as int) as u16
}

/// High byte of a 16-bit value.
pub open spec fn high(v: u16) -> u8 {
    (v / 256) as u8
}

/// Low byte of a 16-bit value.
pub open spec fn low(v: u16) -> u8 {
    (v % 256) as u8
}

/// Merges a high and a low byte into a 16-bit value.
pub fn u8_to_u16(a: u8, b: u8) -> (r: u16)
    ensures
        r == word(a, b),
        r as int == a as int * 256 + b as int,
{
    assert(((a as u16) << 8u16) | (b as u16) == a as int * 256 + b as int) by (bit_vector);
    ((a as u16) << 8) | b as u16
}

/// Splits a 16-bit value into its high and low bytes.
pub fn split_u16(val: u16) -> (r: (u8, u8))
    ensures
        r == (high(val), low(val)),
        r.0 as int * 256 + r.1 as int == val as int,
{
    assert((val >> 8u16) as u8 == val / 256 && val as u8 == val % 256) by (bit_vector);
    ((val >> 8) as u8, val as u8)
}

/// Merging a pair of bytes and splitting the result gives back the pair, and
/// splitting a 16-bit value and merging the halves gives back the value.
pub proof fn lemma_merge_split_inverse(hi: u8, lo: u8, v: u16)
    ensures
        high(word(hi, lo)) == hi,
        low(word(hi, lo)) == lo,
        word(high(v), low(v)) == v,
{
}

} // verus!
