//! Verified core of a dual-transport LoRa text-messaging firmware.
//!
//! The library covers the logic of the firmware that is worth proving:
//! the zero-delimited frame accumulator, the COBS codec, the versioned
//! command/response marshalling with its CRC-16/XMODEM check, the command
//! dispatcher with its response fan-out rules, the serial command reader,
//! and the SX1262 radio driver's register-level command sequences.
//! Hardware access (SPI, USB, BLE) stays outside, behind small traits.

pub mod ble;
pub mod bytes;
pub mod cobs;
pub mod config;
pub mod crc;
pub mod dispatcher;
pub mod frame;
pub mod framing;
pub mod lora;
pub mod serial;
pub mod sx1262;
pub mod tasks;
pub mod types;
