//! Splitting a 16-bit word into its two bytes and joining them again.
use vstd::prelude::*;

verus! {

/// The low byte of `x`.
pub open spec fn lo_byte(x: u16) -> u8 {
    (x % 256) as u8
}

/// The high byte of `x`.
pub open spec fn hi_byte(x: u16) -> u8 {
    (x / 256) as u8
}

/// The word whose low byte is `lo` and whose high byte is `hi`.
pub open spec fn word(lo: u8, hi: u8) -> u16 {
    (lo + 256 * hi) as u16
}

/// Returns the low byte of `x`.
pub fn DM_LOBYTE(x: u16) -> (r: u8)
    ensures
        r == lo_byte(x),
{
    assert(x as u8 == x % 256) by (bit_vector);
    x as u8
}

/// Returns the high byte of `x`.
pub fn DM_HIBYTE(x: u16) -> (r: u8)
    ensures
        r == hi_byte(x),
{
    assert((x >> 8u16) as u8 == x / 256) by (bit_vector);
    (x >> 8) as u8
}

/// Joins a low byte `a` and a high byte `b` into a word.
pub fn DM_MAKEWORD(a: u8, b: u8) -> (r: u16)
    ensures
        r == word(a, b),
{
    assert((a as u16) | ((b as u16) << 8u16) == a + 256 * b) by (bit_vector);
    (a as u16) | ((b as u16) << 8)
}

/// Splitting a word into its bytes and joining them gives the word back.
pub proof fn lemma_word_of_bytes(x: u16)
    ensures
        word(lo_byte(x), hi_byte(x)) == x,
{
}

/// Joining two bytes into a word and splitting it gives the bytes back.
pub proof fn lemma_bytes_of_word(lo: u8, hi: u8)
    ensures
        lo_byte(word(lo, hi)) == lo,
        hi_byte(word(lo, hi)) == hi,
{
}

} // verus!
