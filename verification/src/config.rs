//! Compile-time configuration of the firmware core.

use vstd::prelude::*;

verus! {

/// Frame delimiter of the zero-delimited wire framing.
pub const FRAME_DELIMITER: u8 = 0x00;

/// Maximum size of a frame before COBS encoding.
pub const MAX_FRAME_SIZE: usize = 512;

/// Maximum payload carried in a single LoRa packet.
pub const MAX_LORA_PAYLOAD: usize = 256;

/// Protocol version byte carried by every frame.
pub const PROTOCOL_VERSION: u8 = 1;

/// Firmware version reported by the version query.
pub const VERSION_MAJOR: u8 = 0;
pub const VERSION_MINOR: u8 = 1;
pub const VERSION_PATCH: u8 = 0;

/// Default radio centre frequency in Hz (869.525 MHz).
pub const FREQUENCY_HZ: u32 = 869525000;

/// Default spreading factor.
pub const SPREADING_FACTOR: u8 = 11;

/// Default bandwidth in kHz.
pub const BANDWIDTH_KHZ: u32 = 250;

/// Default coding rate denominator (4/8).
pub const CODING_RATE: u8 = 8;

/// Default transmit power in dBm.
pub const TX_POWER_DBM: i8 = 22;

/// TCXO supply voltage code written to the radio (1.8 V).
pub const TCXO_VOLTAGE_CODE: u8 = 0x02;

/// Polling interval of the background receive loop, in milliseconds;
/// it bounds the latency of a pending transmit command.
pub const RX_POLL_INTERVAL_MS: u32 = 500;

} // verus!
