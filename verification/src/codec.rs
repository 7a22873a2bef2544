//! Byte-pair packing: the one place that fixes the byte order of 16-bit words.

use vstd::prelude::*;

verus! {

/// The 16-bit word whose high byte is `high` and whose low byte is `low`.
pub open spec fn pack(high: u8, low: u8) -> u16 {
    (high as int * 256 + low as int) as u16
}

/// The high and the low byte of `word`, in that order.
pub open spec fn unpack(word: u16) -> (u8, u8) {
    ((word as int / 256) as u8, (word as int % 256) as u8)
}

/// Packs a high and a low byte into one word.
pub fn to_u16(b0: u8, b1: u8) -> (word: u16)
    ensures
        word == pack(b0, b1),
{
    let word: u16 = ((b0 as u16) << 8) | (b1 as u16);
    assert(word == b0 as u16 * 256 + b1 as u16) by (bit_vector)
        requires
            word == ((b0 as u16) << 8) | (b1 as u16),
    ;
    word
}

/// Splits a word into its high and its low byte.
pub fn to_u8(b: u16) -> (bytes: (u8, u8))
    ensures
        bytes == unpack(b),
{
    let high: u8 = (b >> 8) as u8;
    let low: u8 = #[verifier::truncate] (b as u8);
    assert(b >> 8 == b / 256 && b >> 8 < 256) by (bit_vector);
    assert(b as u8 == b % 256) by (bit_vector);
    (high, low)
}

/// Splitting a packed pair gives the pair back.
pub proof fn lemma_unpack_pack(high: u8, low: u8)
    ensures
        unpack(pack(high, low)) == (high, low),
{
}

/// Packing the two halves of a word gives the word back.
pub proof fn lemma_pack_unpack(word: u16)
    ensures
        pack(unpack(word).0, unpack(word).1) == word,
{
}

} // verus!
