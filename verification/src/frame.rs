//! Command and response marshalling.
//!
//! A frame is laid out as
//! `[version][id][length lo][length hi][payload][crc lo][crc hi]`,
//! where the CRC-16/XMODEM covers everything before it. Building and
//! parsing are proved inverse of each other for every well-formed
//! command: see [`lemma_command_round_trip`] and
//! [`lemma_command_wire_round_trip`].

use vstd::prelude::*;

use crate::bytes::{le16, le16_hi, le16_lo, lemma_le16_round_trip, u16_from_le_pair, u16_hi,
    u16_lo};
use crate::cobs::{cobs_decoding, cobs_encode, cobs_encoding, lemma_cobs_round_trip};
use crate::config::{MAX_LORA_PAYLOAD, PROTOCOL_VERSION};
use crate::crc::{calculate_crc, crc16_xmodem};
use crate::types::{Command, CommandId, CommandModel, Response, ResponseId, ResponseModel,
    ResponseStatus};

verus! {

/// The header of a frame: version, identifier, little-endian payload
/// length, then the payload itself.
pub open spec fn frame_header(id: u8, payload: Seq<u8>) -> Seq<u8> {
    seq![
        PROTOCOL_VERSION,
        id,
        le16_lo(payload.len() as u16),
        le16_hi(payload.len() as u16),
    ] + payload
}

/// A complete frame: the header followed by its CRC, little-endian.
pub open spec fn frame_bytes(id: u8, payload: Seq<u8>) -> Seq<u8> {
    frame_header(id, payload) + seq![
        le16_lo(crc16_xmodem(frame_header(id, payload))),
        le16_hi(crc16_xmodem(frame_header(id, payload))),
    ]
}

/// Build a frame for the given identifier byte and payload, without
/// COBS encoding.
pub fn build_command_payload(cmd_id: u8, payload: &[u8]) -> (r: Vec<u8>)
    requires
        payload@.len() <= u16::MAX,
    ensures
        r@ == frame_bytes(cmd_id, payload@),
{
    let mut data: Vec<u8> = Vec::new();
    data.push(PROTOCOL_VERSION);
    data.push(cmd_id);
    let len16: u16 = payload.len() as u16;
    data.push(u16_lo(len16));
    data.push(u16_hi(len16));
    let mut k: usize = 0;
    let ghost head = data@;
    while k < payload.len()
        invariant
            k <= payload@.len(),
            data@ == head + payload@.take(k as int),
        decreases payload@.len() - k,
    {
        data.push(payload[k]);
        k = k + 1;
        assert(data@ =~= head + payload@.take(k as int));
    }
    proof {
        assert(data@ =~= frame_header(cmd_id, payload@));
    }
    let crc: u16 = calculate_crc(data.as_slice());
    data.push(u16_lo(crc));
    data.push(u16_hi(crc));
    proof {
        assert(data@ =~= frame_bytes(cmd_id, payload@));
    }
    data
}

/// Build a complete COBS-encoded frame for a command identifier and
/// payload, ending with the zero delimiter.
pub fn build_command(cmd_id: CommandId, payload: &[u8]) -> (r: Vec<u8>)
    requires
        payload@.len() <= u16::MAX,
    ensures
        r@ == cobs_encoding(frame_bytes(cmd_id.byte(), payload@)),
{
    let raw = build_command_payload(cmd_id.as_byte(), payload);
    cobs_encode(raw.as_slice())
}

/// What parsing a decoded frame yields: the command it carries, or the
/// status describing why it is rejected.
pub open spec fn spec_parse(data: Seq<u8>) -> Result<CommandModel, ResponseStatus> {
    if data.len() < 6 {
        Err(ResponseStatus::InvalidLength)
    } else if data[0] != PROTOCOL_VERSION {
        Err(ResponseStatus::InvalidVersion)
    } else {
        let len = le16(data[2], data[3]) as int;
        if data.len() < 4 + len + 2 {
            Err(ResponseStatus::InvalidLength)
        } else if crc16_xmodem(data.take(4 + len)) != le16(data[4 + len], data[5 + len]) {
            Err(ResponseStatus::CrcError)
        } else {
            match CommandId::spec_from_byte(data[1]) {
                Some(CommandId::GetVersion) => if len == 0 {
                    Ok(CommandModel::GetVersion)
                } else {
                    Err(ResponseStatus::InvalidLength)
                },
                Some(CommandId::Reboot) => if len == 0 {
                    Ok(CommandModel::Reboot)
                } else {
                    Err(ResponseStatus::InvalidLength)
                },
                Some(CommandId::LoraTx) => if 1 <= len <= MAX_LORA_PAYLOAD {
                    Ok(CommandModel::LoraTx { data: data.subrange(4, 4 + len) })
                } else {
                    Err(ResponseStatus::InvalidLength)
                },
                None => Err(ResponseStatus::InvalidCommand),
            }
        }
    }
}

/// Parser for binary protocol commands.
pub struct CommandParser;

impl CommandParser {
    /// Create a new command parser.
    pub fn new() -> (r: CommandParser) {
        CommandParser
    }

    /// Parse a COBS-decoded frame into a command.
    ///
    /// Rejects frames that are too short, carry the wrong protocol
    /// version, fail the CRC check, name an unknown command, or carry
    /// a payload length their command does not allow.
    pub fn parse(&self, data: &[u8]) -> (r: Result<Command, ResponseStatus>)
        ensures
            match r {
                Ok(c) => spec_parse(data@) == Ok::<CommandModel, ResponseStatus>(c@),
                Err(e) => spec_parse(data@) == Err::<CommandModel, ResponseStatus>(e),
            },
    {
        let n: usize = data.len();
        if n < 6 {
            return Err(ResponseStatus::InvalidLength);
        }
        let version: u8 = data[0];
        let id_byte: u8 = data[1];
        let length: usize = u16_from_le_pair(data[2], data[3]) as usize;
        if version != PROTOCOL_VERSION {
            return Err(ResponseStatus::InvalidVersion);
        }
        if n < 4 + length + 2 {
            return Err(ResponseStatus::InvalidLength);
        }
        let received_crc: u16 = u16_from_le_pair(data[4 + length], data[5 + length]);
        let computed_crc: u16 = calculate_crc(&data[0..4 + length]);
        proof {
            assert(data@.subrange(0, 4 + length as int) =~= data@.take(4 + length as int));
        }
        if computed_crc != received_crc {
            return Err(ResponseStatus::CrcError);
        }
        match CommandId::from_byte(id_byte) {
            Some(CommandId::GetVersion) => {
                if length != 0 {
                    return Err(ResponseStatus::InvalidLength);
                }
                Ok(Command::GetVersion)
            },
            Some(CommandId::Reboot) => {
                if length != 0 {
                    return Err(ResponseStatus::InvalidLength);
                }
                Ok(Command::Reboot)
            },
            Some(CommandId::LoraTx) => {
                if length == 0 || length > MAX_LORA_PAYLOAD {
                    return Err(ResponseStatus::InvalidLength);
                }
                let mut data_vec: Vec<u8> = Vec::new();
                let mut k: usize = 0;
                while k < length
                    invariant
                        k <= length,
                        n == data@.len(),
                        4 + length + 2 <= n,
                        data_vec@ == data@.subrange(4, 4 + k as int),
                    decreases length - k,
                {
                    data_vec.push(data[4 + k]);
                    k = k + 1;
                    assert(data_vec@ =~= data@.subrange(4, 4 + k as int));
                }
                Ok(Command::LoraTx { data: data_vec })
            },
            None => Err(ResponseStatus::InvalidCommand),
        }
    }
}

/// Serialiser for response frames.
pub struct ResponseSerialiser;

impl ResponseSerialiser {
    /// Create a new response serialiser.
    pub fn new() -> (r: ResponseSerialiser) {
        ResponseSerialiser
    }

    /// Build the raw, unencoded frame of a response, with its CRC.
    pub fn build_raw_frame(&self, response: &Response) -> (r: Vec<u8>)
        requires
            response@.wf(),
        ensures
            r@ == frame_bytes(response@.id().byte(), response@.payload()),
    {
        let mut payload: Vec<u8> = Vec::new();
        match response {
            Response::Version { major, minor, patch } => {
                payload.push(*major);
                payload.push(*minor);
                payload.push(*patch);
            },
            Response::TxComplete => {
            },
            Response::RxPacket { data, rssi, snr } => {
                let mut k: usize = 0;
                while k < data.len()
                    invariant
                        k <= data@.len(),
                        payload@ == data@.take(k as int),
                    decreases data@.len() - k,
                {
                    payload.push(data[k]);
                    k = k + 1;
                    assert(payload@ =~= data@.take(k as int));
                }
                assert(payload@ =~= data@);
                let rssi_bits: u16 = *rssi as u16;
                payload.push(u16_lo(rssi_bits));
                payload.push(u16_hi(rssi_bits));
                payload.push(*snr as u8);
            },
            Response::Error { status, original_command_id } => {
                payload.push(status.as_byte());
                payload.push(*original_command_id);
            },
        }
        proof {
            assert(payload@ =~= response@.payload());
        }
        let id = response.id();
        build_command_payload(id.as_byte(), payload.as_slice())
    }

    /// Serialise a response to a COBS-encoded frame, ending with the
    /// zero delimiter.
    pub fn serialise(&self, response: &Response) -> (r: Vec<u8>)
        requires
            response@.wf(),
        ensures
            r@ == cobs_encoding(frame_bytes(response@.id().byte(), response@.payload())),
    {
        let raw = self.build_raw_frame(response);
        cobs_encode(raw.as_slice())
    }
}

impl Default for CommandParser {
    fn default() -> (r: CommandParser) {
        CommandParser::new()
    }
}

impl Default for ResponseSerialiser {
    fn default() -> (r: ResponseSerialiser) {
        ResponseSerialiser::new()
    }
}

/// What parsing a decoded response frame yields: its identifier and
/// payload, or the status describing why it is rejected. Responses
/// carry the same frame layout as commands; this is the host's side
/// of the protocol.
pub open spec fn spec_parse_response(data: Seq<u8>) -> Result<(ResponseId, Seq<u8>), ResponseStatus> {
    if data.len() < 6 {
        Err(ResponseStatus::InvalidLength)
    } else {
        let len = le16(data[2], data[3]) as int;
        if data.len() < 4 + len + 2 {
            Err(ResponseStatus::InvalidLength)
        } else if crc16_xmodem(data.take(4 + len)) != le16(data[4 + len], data[5 + len]) {
            Err(ResponseStatus::CrcError)
        } else if data[0] != PROTOCOL_VERSION {
            Err(ResponseStatus::InvalidVersion)
        } else {
            match ResponseId::spec_from_byte(data[1]) {
                Some(id) => Ok((id, data.subrange(4, 4 + len))),
                None => Err(ResponseStatus::InvalidCommand),
            }
        }
    }
}

/// Parse a COBS-decoded response frame into its identifier and
/// payload bytes, checking length, CRC, protocol version and
/// identifier in that order.
pub fn parse_response(data: &[u8]) -> (r: Result<(ResponseId, Vec<u8>), ResponseStatus>)
    ensures
        match r {
            Ok(p) => spec_parse_response(data@) == Ok::<(ResponseId, Seq<u8>), ResponseStatus>(
                (p.0, p.1@),
            ),
            Err(e) => spec_parse_response(data@) == Err::<(ResponseId, Seq<u8>), ResponseStatus>(
                e,
            ),
        },
{
    let n: usize = data.len();
    if n < 6 {
        return Err(ResponseStatus::InvalidLength);
    }
    let length: usize = u16_from_le_pair(data[2], data[3]) as usize;
    if n < 4 + length + 2 {
        return Err(ResponseStatus::InvalidLength);
    }
    let received_crc: u16 = u16_from_le_pair(data[4 + length], data[5 + length]);
    let computed_crc: u16 = calculate_crc(&data[0..4 + length]);
    proof {
        assert(data@.subrange(0, 4 + length as int) =~= data@.take(4 + length as int));
    }
    if computed_crc != received_crc {
        return Err(ResponseStatus::CrcError);
    }
    if data[0] != PROTOCOL_VERSION {
        return Err(ResponseStatus::InvalidVersion);
    }
    match ResponseId::from_byte(data[1]) {
        Some(id) => {
            let mut payload: Vec<u8> = Vec::new();
            let mut k: usize = 0;
            while k < length
                invariant
                    k <= length,
                    n == data@.len(),
                    4 + length + 2 <= n,
                    payload@ == data@.subrange(4, 4 + k as int),
                decreases length - k,
            {
                payload.push(data[4 + k]);
                k = k + 1;
                assert(payload@ =~= data@.subrange(4, 4 + k as int));
            }
            Ok((id, payload))
        },
        None => Err(ResponseStatus::InvalidCommand),
    }
}

/// Parsing inverts building: every well-formed response round-trips
/// through its raw wire frame back to its identifier and payload.
pub proof fn lemma_response_round_trip(r: ResponseModel)
    requires
        r.wf(),
    ensures
        spec_parse_response(frame_bytes(r.id().byte(), r.payload())) == Ok::<
            (ResponseId, Seq<u8>),
            ResponseStatus,
        >((r.id(), r.payload())),
{
    let id = r.id().byte();
    let p = r.payload();
    let h = frame_header(id, p);
    let f = frame_bytes(id, p);
    assert(p.len() <= MAX_LORA_PAYLOAD + 3);
    assert(h.len() == p.len() + 4);
    assert(f.len() == p.len() + 6);
    assert(f[0] == PROTOCOL_VERSION);
    assert(f[1] == id);
    assert(f[2] == le16_lo(p.len() as u16));
    assert(f[3] == le16_hi(p.len() as u16));
    lemma_le16_round_trip(p.len() as u16);
    let len = le16(f[2], f[3]) as int;
    assert(len == p.len());
    assert(f.take(4 + len) =~= h);
    assert(f[4 + len] == le16_lo(crc16_xmodem(h)));
    assert(f[5 + len] == le16_hi(crc16_xmodem(h)));
    lemma_le16_round_trip(crc16_xmodem(h));
    assert(le16(f[4 + len], f[5 + len]) == crc16_xmodem(f.take(4 + len)));
    assert(ResponseId::spec_from_byte(id) == Some(r.id()));
    assert(f.subrange(4, 4 + len) =~= p);
}

/// Parsing inverts building: every well-formed command round-trips
/// through its raw wire frame.
pub proof fn lemma_command_round_trip(c: CommandModel)
    requires
        c.wf(),
    ensures
        spec_parse(frame_bytes(c.id().byte(), c.payload())) == Ok::<CommandModel, ResponseStatus>(
            c,
        ),
{
    let id = c.id().byte();
    let p = c.payload();
    let h = frame_header(id, p);
    let f = frame_bytes(id, p);
    assert(p.len() <= MAX_LORA_PAYLOAD);
    assert(h.len() == p.len() + 4);
    assert(f.len() == p.len() + 6);
    assert(f[0] == PROTOCOL_VERSION);
    assert(f[1] == id);
    assert(f[2] == le16_lo(p.len() as u16));
    assert(f[3] == le16_hi(p.len() as u16));
    lemma_le16_round_trip(p.len() as u16);
    let len = le16(f[2], f[3]) as int;
    assert(len == p.len());
    assert(f.take(4 + len) =~= h);
    assert(f[4 + len] == le16_lo(crc16_xmodem(h)));
    assert(f[5 + len] == le16_hi(crc16_xmodem(h)));
    lemma_le16_round_trip(crc16_xmodem(h));
    assert(le16(f[4 + len], f[5 + len]) == crc16_xmodem(f.take(4 + len)));
    assert(CommandId::spec_from_byte(id) == Some(c.id()));
    match c {
        CommandModel::GetVersion => {
        },
        CommandModel::Reboot => {
        },
        CommandModel::LoraTx { data } => {
            assert(f.subrange(4, 4 + len) =~= data);
        },
    }
}

/// The full wire round trip: COBS-decoding an encoded command frame
/// and parsing it yields the command back.
pub proof fn lemma_command_wire_round_trip(c: CommandModel)
    requires
        c.wf(),
    ensures
        ({
            let wire = cobs_encoding(frame_bytes(c.id().byte(), c.payload()));
            cobs_decoding(wire) matches Some(raw) && spec_parse(raw)
                == Ok::<CommandModel, ResponseStatus>(c)
        }),
{
    lemma_cobs_round_trip(frame_bytes(c.id().byte(), c.payload()));
    lemma_command_round_trip(c);
}

} // verus!
