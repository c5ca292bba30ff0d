//! Command and response types of the binary protocol.
//!
//! Every frame, command or response, carries the layout
//! `[version][id][length lo][length hi][payload][crc lo][crc hi]`
//! before COBS encoding. The spec-level views below give each variant
//! its identifier byte and payload bytes, which the marshalling code
//! is proved to produce and consume.

use vstd::prelude::*;

use crate::bytes::{le16_hi, le16_lo};
use crate::config::MAX_LORA_PAYLOAD;

verus! {

/// Command identifiers accepted by the device.
#[derive(Debug, Clone, Copy, PartialEq, Eq, Structural)]
pub enum CommandId {
    /// Query the firmware version.
    GetVersion,
    /// Reboot the device.
    Reboot,
    /// Transmit a LoRa packet.
    LoraTx,
}

impl CommandId {
    /// Wire byte of this command identifier.
    pub open spec fn byte(self) -> u8 {
        match self {
            CommandId::GetVersion => 0x01,
            CommandId::Reboot => 0x03,
            CommandId::LoraTx => 0x10,
        }
    }

    /// The command identifier a wire byte stands for, if any.
    pub open spec fn spec_from_byte(byte: u8) -> Option<CommandId> {
        if byte == 0x01 {
            Some(CommandId::GetVersion)
        } else if byte == 0x03 {
            Some(CommandId::Reboot)
        } else if byte == 0x10 {
            Some(CommandId::LoraTx)
        } else {
            None
        }
    }

    /// Try to convert a wire byte to a command identifier.
    pub fn from_byte(byte: u8) -> (r: Option<CommandId>)
        ensures
            r == CommandId::spec_from_byte(byte),
    {
        match byte {
            0x01 => Some(CommandId::GetVersion),
            0x03 => Some(CommandId::Reboot),
            0x10 => Some(CommandId::LoraTx),
            _ => None,
        }
    }

    /// Wire byte of this command identifier.
    pub fn as_byte(self) -> (r: u8)
        ensures
            r == self.byte(),
    {
        match self {
            CommandId::GetVersion => 0x01,
            CommandId::Reboot => 0x03,
            CommandId::LoraTx => 0x10,
        }
    }
}

/// A parsed command together with its payload.
#[derive(Debug, Clone, PartialEq)]
pub enum Command {
    /// Query the firmware version.
    GetVersion,
    /// Reboot the device.
    Reboot,
    /// Transmit the given bytes over LoRa.
    LoraTx { data: Vec<u8> },
}

/// Spec-level model of a command.
pub enum CommandModel {
    GetVersion,
    Reboot,
    LoraTx { data: Seq<u8> },
}

impl View for Command {
    type V = CommandModel;

    open spec fn view(&self) -> CommandModel {
        match self {
            Command::GetVersion => CommandModel::GetVersion,
            Command::Reboot => CommandModel::Reboot,
            Command::LoraTx { data } => CommandModel::LoraTx { data: data@ },
        }
    }
}

impl CommandModel {
    /// Identifier of this command.
    pub open spec fn id(self) -> CommandId {
        match self {
            CommandModel::GetVersion => CommandId::GetVersion,
            CommandModel::Reboot => CommandId::Reboot,
            CommandModel::LoraTx { .. } => CommandId::LoraTx,
        }
    }

    /// Payload bytes this command carries on the wire.
    pub open spec fn payload(self) -> Seq<u8> {
        match self {
            CommandModel::GetVersion => Seq::empty(),
            CommandModel::Reboot => Seq::empty(),
            CommandModel::LoraTx { data } => data,
        }
    }

    /// A command the device accepts: LoRa payloads hold 1 to 256 bytes.
    pub open spec fn wf(self) -> bool {
        match self {
            CommandModel::LoraTx { data } => 1 <= data.len() <= MAX_LORA_PAYLOAD,
            _ => true,
        }
    }
}

impl Command {
    /// Get the command identifier of this command.
    pub fn id(&self) -> (r: CommandId)
        ensures
            r == self@.id(),
    {
        match self {
            Command::GetVersion => CommandId::GetVersion,
            Command::Reboot => CommandId::Reboot,
            Command::LoraTx { .. } => CommandId::LoraTx,
        }
    }
}

/// Status codes reported in error responses.
#[derive(Debug, Clone, Copy, PartialEq, Eq, Structural)]
pub enum ResponseStatus {
    /// Command executed successfully.
    Success,
    /// Unknown or invalid command identifier.
    InvalidCommand,
    /// Payload length invalid for the command.
    InvalidLength,
    /// CRC-16 checksum mismatch.
    CrcError,
    /// Protocol version not supported.
    InvalidVersion,
    /// LoRa radio error during the operation.
    LoraError,
    /// The operation timed out.
    Timeout,
}

impl ResponseStatus {
    /// Wire byte of this status code.
    pub open spec fn byte(self) -> u8 {
        match self {
            ResponseStatus::Success => 0x00,
            ResponseStatus::InvalidCommand => 0x01,
            ResponseStatus::InvalidLength => 0x02,
            ResponseStatus::CrcError => 0x03,
            ResponseStatus::InvalidVersion => 0x04,
            ResponseStatus::LoraError => 0x10,
            ResponseStatus::Timeout => 0x11,
        }
    }

    /// The status a wire byte stands for, if any.
    pub open spec fn spec_from_byte(byte: u8) -> Option<ResponseStatus> {
        if byte == 0x00 {
            Some(ResponseStatus::Success)
        } else if byte == 0x01 {
            Some(ResponseStatus::InvalidCommand)
        } else if byte == 0x02 {
            Some(ResponseStatus::InvalidLength)
        } else if byte == 0x03 {
            Some(ResponseStatus::CrcError)
        } else if byte == 0x04 {
            Some(ResponseStatus::InvalidVersion)
        } else if byte == 0x10 {
            Some(ResponseStatus::LoraError)
        } else if byte == 0x11 {
            Some(ResponseStatus::Timeout)
        } else {
            None
        }
    }

    /// Try to convert a wire byte to a status code.
    pub fn from_byte(byte: u8) -> (r: Option<ResponseStatus>)
        ensures
            r == ResponseStatus::spec_from_byte(byte),
    {
        match byte {
            0x00 => Some(ResponseStatus::Success),
            0x01 => Some(ResponseStatus::InvalidCommand),
            0x02 => Some(ResponseStatus::InvalidLength),
            0x03 => Some(ResponseStatus::CrcError),
            0x04 => Some(ResponseStatus::InvalidVersion),
            0x10 => Some(ResponseStatus::LoraError),
            0x11 => Some(ResponseStatus::Timeout),
            _ => None,
        }
    }

    /// Wire byte of this status code.
    pub fn as_byte(self) -> (r: u8)
        ensures
            r == self.byte(),
    {
        match self {
            ResponseStatus::Success => 0x00,
            ResponseStatus::InvalidCommand => 0x01,
            ResponseStatus::InvalidLength => 0x02,
            ResponseStatus::CrcError => 0x03,
            ResponseStatus::InvalidVersion => 0x04,
            ResponseStatus::LoraError => 0x10,
            ResponseStatus::Timeout => 0x11,
        }
    }
}

/// Response identifiers sent by the device.
#[derive(Debug, Clone, Copy, PartialEq, Eq, Structural)]
pub enum ResponseId {
    /// Firmware version reply.
    Version,
    /// LoRa transmission completed.
    TxComplete,
    /// Received LoRa packet, sent unsolicited.
    RxPacket,
    /// Error reply with a status code.
    Error,
}

impl ResponseId {
    /// Wire byte of this response identifier.
    pub open spec fn byte(self) -> u8 {
        match self {
            ResponseId::Version => 0x01,
            ResponseId::TxComplete => 0x10,
            ResponseId::RxPacket => 0x11,
            ResponseId::Error => 0xFF,
        }
    }

    /// The response identifier a wire byte stands for, if any.
    pub open spec fn spec_from_byte(byte: u8) -> Option<ResponseId> {
        if byte == 0x01 {
            Some(ResponseId::Version)
        } else if byte == 0x10 {
            Some(ResponseId::TxComplete)
        } else if byte == 0x11 {
            Some(ResponseId::RxPacket)
        } else if byte == 0xFF {
            Some(ResponseId::Error)
        } else {
            None
        }
    }

    /// Try to convert a wire byte to a response identifier.
    pub fn from_byte(byte: u8) -> (r: Option<ResponseId>)
        ensures
            r == ResponseId::spec_from_byte(byte),
    {
        match byte {
            0x01 => Some(ResponseId::Version),
            0x10 => Some(ResponseId::TxComplete),
            0x11 => Some(ResponseId::RxPacket),
            0xFF => Some(ResponseId::Error),
            _ => None,
        }
    }

    /// Wire byte of this response identifier.
    pub fn as_byte(self) -> (r: u8)
        ensures
            r == self.byte(),
    {
        match self {
            ResponseId::Version => 0x01,
            ResponseId::TxComplete => 0x10,
            ResponseId::RxPacket => 0x11,
            ResponseId::Error => 0xFF,
        }
    }
}

/// A response to a command, or an unsolicited reception report.
#[derive(Debug, Clone, PartialEq)]
pub enum Response {
    /// Firmware version triple.
    Version { major: u8, minor: u8, patch: u8 },
    /// LoRa transmission completed.
    TxComplete,
    /// Received LoRa packet with its signal metadata.
    RxPacket { data: Vec<u8>, rssi: i16, snr: i8 },
    /// Error reply.
    Error { status: ResponseStatus, original_command_id: u8 },
}

/// Spec-level model of a response.
pub enum ResponseModel {
    Version { major: u8, minor: u8, patch: u8 },
    TxComplete,
    RxPacket { data: Seq<u8>, rssi: i16, snr: i8 },
    Error { status: ResponseStatus, original_command_id: u8 },
}

impl View for Response {
    type V = ResponseModel;

    open spec fn view(&self) -> ResponseModel {
        match self {
            Response::Version { major, minor, patch } => ResponseModel::Version {
                major: *major,
                minor: *minor,
                patch: *patch,
            },
            Response::TxComplete => ResponseModel::TxComplete,
            Response::RxPacket { data, rssi, snr } => ResponseModel::RxPacket {
                data: data@,
                rssi: *rssi,
                snr: *snr,
            },
            Response::Error { status, original_command_id } => ResponseModel::Error {
                status: *status,
                original_command_id: *original_command_id,
            },
        }
    }
}

impl ResponseModel {
    /// Identifier of this response.
    pub open spec fn id(self) -> ResponseId {
        match self {
            ResponseModel::Version { .. } => ResponseId::Version,
            ResponseModel::TxComplete => ResponseId::TxComplete,
            ResponseModel::RxPacket { .. } => ResponseId::RxPacket,
            ResponseModel::Error { .. } => ResponseId::Error,
        }
    }

    /// Payload bytes this response carries on the wire.
    ///
    /// The reception report appends the signed 16-bit RSSI little-endian
    /// and the signed 8-bit SNR, both in two's complement.
    pub open spec fn payload(self) -> Seq<u8> {
        match self {
            ResponseModel::Version { major, minor, patch } => seq![major, minor, patch],
            ResponseModel::TxComplete => Seq::empty(),
            ResponseModel::RxPacket { data, rssi, snr } => data + seq![
                le16_lo(rssi as u16),
                le16_hi(rssi as u16),
                snr as u8,
            ],
            ResponseModel::Error { status, original_command_id } => seq![
                status.byte(),
                original_command_id,
            ],
        }
    }

    /// A response the device emits: reception payloads hold at most 256 bytes.
    pub open spec fn wf(self) -> bool {
        match self {
            ResponseModel::RxPacket { data, .. } => data.len() <= MAX_LORA_PAYLOAD,
            _ => true,
        }
    }
}

impl Response {
    /// Get the response identifier of this response.
    pub fn id(&self) -> (r: ResponseId)
        ensures
            r == self@.id(),
    {
        match self {
            Response::Version { .. } => ResponseId::Version,
            Response::TxComplete => ResponseId::TxComplete,
            Response::RxPacket { .. } => ResponseId::RxPacket,
            Response::Error { .. } => ResponseId::Error,
        }
    }

    /// Create an error response for a given command.
    pub fn error(status: ResponseStatus, command_id: CommandId) -> (r: Response)
        ensures
            r@ == (ResponseModel::Error { status, original_command_id: command_id.byte() }),
    {
        Response::Error { status, original_command_id: command_id.as_byte() }
    }

    /// Create an error response with a raw command identifier byte.
    pub fn error_raw(status: ResponseStatus, original_command_id: u8) -> (r: Response)
        ensures
            r@ == (ResponseModel::Error { status, original_command_id }),
    {
        Response::Error { status, original_command_id }
    }
}

} // verus!
