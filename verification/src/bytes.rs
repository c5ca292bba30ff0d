//! Little-endian byte helpers shared by the frame codec.

use vstd::prelude::*;

verus! {

/// The 16-bit value encoded by a little-endian byte pair.
pub open spec fn le16(lo: u8, hi: u8) -> u16 {
    (lo + hi * 256) as u16
}

/// Low byte of the little-endian encoding of a 16-bit value.
pub open spec fn le16_lo(x: u16) -> u8 {
    (x % 256) as u8
}

/// High byte of the little-endian encoding of a 16-bit value.
pub open spec fn le16_hi(x: u16) -> u8 {
    (x / 256) as u8
}

/// Encoding a 16-bit value little-endian and reading it back is the identity.
pub proof fn lemma_le16_round_trip(x: u16)
    ensures
        le16(le16_lo(x), le16_hi(x)) == x,
{
}

/// Combine a little-endian byte pair into a 16-bit value.
pub fn u16_from_le_pair(lo: u8, hi: u8) -> (r: u16)
    ensures
        r == le16(lo, hi),
{
    lo as u16 + hi as u16 * 256
}

/// Low byte of a 16-bit value.
pub fn u16_lo(x: u16) -> (r: u8)
    ensures
        r == le16_lo(x),
{
    (x % 256) as u8
}

/// High byte of a 16-bit value.
pub fn u16_hi(x: u16) -> (r: u8)
    ensures
        r == le16_hi(x),
{
    (x / 256) as u8
}

} // verus!
