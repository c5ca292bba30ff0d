//! BLE surface values: the advertised device name and the random
//! address.
//!
//! The BLE stack itself lives in the firmware shell; this module
//! computes the values it advertises from the device identifier,
//! the low three bytes of the MAC address.

use vstd::prelude::*;

verus! {

/// Largest notification payload of the BLE serial service.
pub const NUS_MAX_PACKET_SIZE: usize = 128;

/// The ASCII digit of a value below sixteen, upper case.
pub open spec fn spec_hex_digit(v: u8) -> u8 {
    if v < 10 {
        (48 + v) as u8
    } else {
        (55 + v) as u8
    }
}

/// Render a value below sixteen as an upper-case ASCII hex digit.
pub fn hex_digit(v: u8) -> (r: u8)
    requires
        v < 16,
    ensures
        r == spec_hex_digit(v),
{
    if v < 10 {
        48 + v
    } else {
        55 + v
    }
}

/// The advertised name: the fixed prefix, then the six upper-case
/// hex digits of the three identifier bytes.
pub open spec fn spec_device_name(id: Seq<u8>) -> Seq<u8>
    recommends
        id.len() == 3,
{
    seq![
        0x57u8, 0x61u8, 0x6Cu8, 0x6Bu8, 0x69u8, 0x65u8, 0x54u8, 0x65u8, 0x78u8, 0x74u8, 0x69u8, 0x65u8, 0x2Du8,
        spec_hex_digit(id[0] / 16), spec_hex_digit(id[0] % 16),
        spec_hex_digit(id[1] / 16), spec_hex_digit(id[1] % 16),
        spec_hex_digit(id[2] / 16), spec_hex_digit(id[2] % 16),
    ]
}

/// Format the advertised device name from the identifier bytes.
///
/// The result is ASCII throughout: the fixed prefix followed by six
/// upper-case hex digits.
pub fn format_device_name(device_id: &[u8; 3]) -> (r: Vec<u8>)
    ensures
        r@ == spec_device_name(device_id@),
        r@.len() == 19,
{
    let mut name: Vec<u8> = Vec::new();
    name.push(0x57u8);
    name.push(0x61u8);
    name.push(0x6Cu8);
    name.push(0x6Bu8);
    name.push(0x69u8);
    name.push(0x65u8);
    name.push(0x54u8);
    name.push(0x65u8);
    name.push(0x78u8);
    name.push(0x74u8);
    name.push(0x69u8);
    name.push(0x65u8);
    name.push(0x2Du8);
    let b0: u8 = device_id[0];
    let b1: u8 = device_id[1];
    let b2: u8 = device_id[2];
    name.push(hex_digit(b0 / 16));
    name.push(hex_digit(b0 % 16));
    name.push(hex_digit(b1 / 16));
    name.push(hex_digit(b1 % 16));
    name.push(hex_digit(b2 / 16));
    name.push(hex_digit(b2 % 16));
    proof {
        assert(name@ =~= spec_device_name(device_id@));
    }
    name
}

/// The random BLE address: the identifier bytes then a fixed tail.
pub fn ble_random_address(device_id: &[u8; 3]) -> (r: Vec<u8>)
    ensures
        r@ == seq![device_id@[0], device_id@[1], device_id@[2], 0x1Eu8, 0x83u8, 0xE7u8],
{
    let mut addr: Vec<u8> = Vec::new();
    addr.push(device_id[0]);
    addr.push(device_id[1]);
    addr.push(device_id[2]);
    addr.push(0x1E);
    addr.push(0x83);
    addr.push(0xE7);
    proof {
        assert(addr@ =~= seq![device_id@[0], device_id@[1], device_id@[2], 0x1Eu8, 0x83u8,
            0xE7u8]);
    }
    addr
}

} // verus!
