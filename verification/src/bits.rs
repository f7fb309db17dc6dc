use vstd::arithmetic::power2::{lemma2_to64, pow2};
use vstd::prelude::*;

verus! {

/// Bit `n` of `b`, counted from the least-significant bit (bit 0 = value 1).
pub open spec fn spec_bit(b: u8, n: u8) -> bool {
    (b >> n) & 1 == 1
}

/// The 16-bit value stored little-endian as the byte pair `(lo, hi)`.
pub open spec fn spec_u16_le(lo: u8, hi: u8) -> u16 {
    ((hi as u16) << 8) | (lo as u16)
}

/// Number of entries of a palette table with size exponent `pixel`:
/// always `2^(pixel + 1)`.
pub open spec fn color_table_len(pixel: u8) -> nat {
    pow2(pixel as nat + 1)
}

/// A 3-bit field extracted with the low mask is always a valid palette
/// size exponent.
pub proof fn lemma_low3_bits(b: u8)
    ensures
        b & 7 < 8,
{
    assert(b & 7 < 8) by (bit_vector);
}

/// Splitting a 16-bit value into its little-endian byte pair and
/// recombining it gives the value back.
pub proof fn lemma_u16_le_split(x: u16)
    ensures
        x & 0xff < 256,
        x >> 8 < 256,
        spec_u16_le((x & 0xff) as u8, (x >> 8) as u8) == x,
{
    assert(x & 0xff < 256) by (bit_vector);
    assert(x >> 8 < 256) by (bit_vector);
    assert(((((x >> 8) as u8) as u16) << 8) | (((x & 0xff) as u8) as u16) == x) by (bit_vector);
}

/// Extracts a single flag bit from a bit-packed flags byte.
pub fn nth_bit(b: u8, n: u8) -> (r: bool)
    requires
        n < 8,
    ensures
        r == spec_bit(b, n),
{
    (b >> n) & 1 == 1
}

/// Combines a little-endian byte pair into its 16-bit value.
pub fn u16_le(lo: u8, hi: u8) -> (r: u16)
    ensures
        r == spec_u16_le(lo, hi),
{
    ((hi as u16) << 8) | (lo as u16)
}

/// The entry count `2^(pixel + 1)` of a palette table whose descriptor
/// carries the 3-bit size exponent `pixel`.
pub fn color_table_entries(pixel: u8) -> (n: usize)
    requires
        pixel < 8,
    ensures
        n == color_table_len(pixel),
        2 <= n <= 256,
{
    proof {
        lemma2_to64();
    }
    if pixel == 0 {
        2
    } else if pixel == 1 {
        4
    } else if pixel == 2 {
        8
    } else if pixel == 3 {
        16
    } else if pixel == 4 {
        32
    } else if pixel == 5 {
        64
    } else if pixel == 6 {
        128
    } else {
        256
    }
}

} // verus!
