//! Small bit-level facts shared across the emulator cores.
use vstd::prelude::*;

verus! {

/// A masked byte never exceeds its mask.
pub broadcast proof fn lemma_and_le8(x: u8, m: u8)
    ensures #[trigger] (x & m) <= m,
{
    assert(x & m <= m) by (bit_vector);
}

/// A masked halfword never exceeds its mask.
pub broadcast proof fn lemma_and_le16(x: u16, m: u16)
    ensures #[trigger] (x & m) <= m,
{
    assert(x & m <= m) by (bit_vector);
}

/// A masked word never exceeds its mask.
pub broadcast proof fn lemma_and_le(x: u32, m: u32)
    ensures #[trigger] (x & m) <= m,
{
    assert(x & m <= m) by (bit_vector);
}

/// The top bit of a word, shifted down, is 0 or 1.
pub broadcast proof fn lemma_shr31(x: u32)
    ensures #[trigger] (x >> 31u32) <= 1,
{
    vstd::bits::lemma_u32_shr_is_div(x, 31u32);
    vstd::arithmetic::power2::lemma2_to64();
}

/// Two bytes joined little-endian into a halfword.
pub proof fn lemma_le16(lo: u8, hi: u8)
    ensures (lo as u16) | ((hi as u16) << 8u16) == lo + hi * 256,
{
    assert((lo as u16) | ((hi as u16) << 8u16) == lo + hi * 256) by (bit_vector);
}

/// Clearing the bits of `y` from `x` leaves none of them, and the cleared
/// bits together with the shared ones give `x` back.
pub proof fn lemma_bit_clear(x: u32, y: u32)
    ensures
        (x & !y) & y == 0,
        (x & !y) | (x & y) == x,
{
    assert((x & !y) & y == 0 && (x & !y) | (x & y) == x) by (bit_vector);
}

/// The top bit of a word is set exactly for the words of 2^31 and above.
pub proof fn lemma_bit31_mask(x: u32)
    ensures (x & 0x8000_0000 != 0) == (x >= 0x8000_0000),
{
    assert((x & 0x8000_0000 != 0) == (x >= 0x8000_0000)) by (bit_vector);
}

} // verus!
