//! CRC-16/XMODEM checksums, computed by the `crc` crate.

use vstd::prelude::*;

verus! {

/// The CRC-16/XMODEM checksum of a byte sequence: polynomial 0x1021,
/// initial value 0, no reflection, no final exclusive-or.
pub uninterp spec fn crc16_xmodem(data: Seq<u8>) -> u16;

/// Relies on `crc::Crc::<u16>::checksum` with the `CRC_16_XMODEM`
/// algorithm: the checksum is a function of the input bytes alone.
#[verifier::external_body]
fn crc16_checksum(data: &[u8]) -> (r: u16)
    ensures
        r == crc16_xmodem(data@),
{
    crc::Crc::<u16>::new(&crc::CRC_16_XMODEM).checksum(data)
}

/// Calculate the CRC-16/XMODEM checksum of a frame prefix.
pub fn calculate_crc(data: &[u8]) -> (r: u16)
    ensures
        r == crc16_xmodem(data@),
{
    crc16_checksum(data)
}

} // verus!
