//! Tests of the CRC, the COBS codec, the command parser and the
//! response serialiser.

use walkie_textie::cobs::{cobs_decode, cobs_encode};
use walkie_textie::config::{FRAME_DELIMITER, PROTOCOL_VERSION};
use walkie_textie::crc::calculate_crc;
use walkie_textie::frame::{build_command_payload, parse_response, CommandParser, ResponseSerialiser};
use walkie_textie::types::{Command, CommandId, Response, ResponseId, ResponseStatus};

fn build_frame(cmd_id: u8, payload: &[u8]) -> Vec<u8> {
    build_command_payload(cmd_id, payload)
}

#[test]
fn test_parse_get_version() {
    let parser = CommandParser::new();
    let frame = build_frame(0x01, &[]);

    let cmd = parser.parse(&frame).expect("Should parse");
    assert!(matches!(cmd, Command::GetVersion));
}

#[test]
fn test_parse_lora_tx() {
    let parser = CommandParser::new();
    let payload = [0x48, 0x65, 0x6C, 0x6C, 0x6F];
    let frame = build_frame(0x10, &payload);

    let cmd = parser.parse(&frame).expect("Should parse");
    match cmd {
        Command::LoraTx { data } => {
            assert_eq!(data.as_slice(), &payload);
        }
        _ => panic!("Expected LoraTx"),
    }
}

#[test]
fn test_invalid_crc() {
    let parser = CommandParser::new();
    let mut frame = build_frame(0x01, &[]);
    let len = frame.len();
    frame[len - 1] ^= 0xFF;

    let result = parser.parse(&frame);
    assert_eq!(result, Err(ResponseStatus::CrcError));
}

#[test]
fn test_invalid_command() {
    let parser = CommandParser::new();
    let frame = build_frame(0xFE, &[]);

    let result = parser.parse(&frame);
    assert_eq!(result, Err(ResponseStatus::InvalidCommand));
}

#[test]
fn test_invalid_version() {
    let parser = CommandParser::new();
    let mut frame: Vec<u8> = Vec::new();
    frame.push(0x00);
    frame.push(0x01);
    frame.extend_from_slice(&0u16.to_le_bytes());
    let crc = calculate_crc(&frame);
    frame.extend_from_slice(&crc.to_le_bytes());

    let result = parser.parse(&frame);
    assert_eq!(result, Err(ResponseStatus::InvalidVersion));
}

#[test]
fn test_too_short() {
    let parser = CommandParser::new();
    let result = parser.parse(&[0x01, 0x01, 0x00]);
    assert_eq!(result, Err(ResponseStatus::InvalidLength));
}

#[test]
fn test_parse_reboot() {
    let parser = CommandParser::new();
    let frame = build_frame(0x03, &[]);

    let cmd = parser.parse(&frame).expect("Should parse");
    assert!(matches!(cmd, Command::Reboot));
}

#[test]
fn test_parse_lora_tx_empty_rejected() {
    let parser = CommandParser::new();
    let frame = build_frame(0x10, &[]);
    assert_eq!(parser.parse(&frame), Err(ResponseStatus::InvalidLength));
}

#[test]
fn test_parse_get_version_with_payload_rejected() {
    let parser = CommandParser::new();
    let frame = build_frame(0x01, &[0xAA]);
    assert_eq!(parser.parse(&frame), Err(ResponseStatus::InvalidLength));
}

#[test]
fn test_crc_known_value() {
    // the catalogue check value of CRC-16/XMODEM
    assert_eq!(calculate_crc(b"123456789"), 0x31C3);
    // the version-query header
    assert_eq!(calculate_crc(&[0x01, 0x01, 0x00, 0x00]), 0x4184);
}

#[test]
fn test_get_version_frame_bytes() {
    let frame = build_frame(0x01, &[]);
    assert_eq!(frame.as_slice(), &[0x01, 0x01, 0x00, 0x00, 0x84, 0x41]);
}

#[test]
fn test_single_byte_mutations_rejected() {
    let parser = CommandParser::new();
    let frame = build_frame(0x10, &[0xDE, 0xAD, 0xBE, 0xEF]);
    assert!(parser.parse(&frame).is_ok());
    for i in 0..frame.len() {
        let mut corrupt = frame.clone();
        corrupt[i] ^= 0x55;
        assert!(
            parser.parse(&corrupt).is_err(),
            "mutation at byte {} went unnoticed",
            i
        );
    }
}

#[test]
fn test_serialise_version() {
    let serialiser = ResponseSerialiser::new();
    let response = Response::Version { major: 0, minor: 1, patch: 0 };

    let encoded = serialiser.serialise(&response);

    assert_eq!(encoded[encoded.len() - 1], FRAME_DELIMITER);

    let decoded = cobs_decode(&encoded).expect("Should decode");

    assert_eq!(decoded[0], PROTOCOL_VERSION);
    assert_eq!(decoded[1], 0x01);
    assert_eq!(decoded[2], 3);
    assert_eq!(decoded[3], 0);
    assert_eq!(decoded[4], 0);
    assert_eq!(decoded[5], 1);
    assert_eq!(decoded[6], 0);
}

#[test]
fn test_serialise_tx_complete() {
    let serialiser = ResponseSerialiser::new();
    let response = Response::TxComplete;

    let encoded = serialiser.serialise(&response);
    assert_eq!(encoded[encoded.len() - 1], FRAME_DELIMITER);
}

#[test]
fn test_serialise_rx_packet() {
    let serialiser = ResponseSerialiser::new();
    let data: Vec<u8> = vec![0x48, 0x65, 0x6C, 0x6C, 0x6F];

    let response = Response::RxPacket { data, rssi: -50, snr: 10 };

    let encoded = serialiser.serialise(&response);
    assert_eq!(encoded[encoded.len() - 1], FRAME_DELIMITER);

    let decoded = cobs_decode(&encoded).expect("Should decode");

    assert_eq!(decoded[0], PROTOCOL_VERSION);
    assert_eq!(decoded[1], 0x11);
    let length = u16::from_le_bytes([decoded[2], decoded[3]]);
    assert_eq!(length, 8);
}

#[test]
fn test_serialise_error() {
    let serialiser = ResponseSerialiser::new();
    let response = Response::Error {
        status: ResponseStatus::Timeout,
        original_command_id: 0x10,
    };

    let encoded = serialiser.serialise(&response);
    assert_eq!(encoded[encoded.len() - 1], FRAME_DELIMITER);

    let decoded = cobs_decode(&encoded).expect("Should decode");

    assert_eq!(decoded[0], PROTOCOL_VERSION);
    assert_eq!(decoded[1], 0xFF);
    assert_eq!(decoded[4], 0x11);
    assert_eq!(decoded[5], 0x10);
}

#[test]
fn test_serialise_rx_packet_metadata_bytes() {
    let serialiser = ResponseSerialiser::new();
    let response = Response::RxPacket { data: vec![0xAB], rssi: -50, snr: -2 };

    let raw = serialiser.build_raw_frame(&response);
    // header, payload byte, RSSI little-endian two's complement, SNR
    assert_eq!(raw[0], 0x01);
    assert_eq!(raw[1], 0x11);
    assert_eq!(u16::from_le_bytes([raw[2], raw[3]]), 4);
    assert_eq!(raw[4], 0xAB);
    assert_eq!(i16::from_le_bytes([raw[5], raw[6]]), -50);
    assert_eq!(raw[7] as i8, -2);
}

#[test]
fn test_cobs_roundtrip() {
    let data_with_zeros = [0x01, 0x00, 0x02, 0x00, 0x03];
    let encoded = cobs_encode(&data_with_zeros);

    println!("Encoded: {:02x?}", encoded.as_slice());

    assert_eq!(encoded[encoded.len() - 1], 0x00, "Should end with zero");

    for &byte in &encoded[..encoded.len() - 1] {
        assert_ne!(byte, 0, "COBS encoded data should not contain zeros");
    }

    let decoded = cobs_decode(&encoded).expect("Should decode");
    println!("Decoded: {:02x?}", decoded.as_slice());
    assert_eq!(decoded.as_slice(), &data_with_zeros);
}

#[test]
fn test_cobs_roundtrip_lengths() {
    // every length through the block-splitting edges, plus the
    // largest frame the protocol produces
    let mut lengths: Vec<usize> = (0..6).collect();
    lengths.extend_from_slice(&[253, 254, 255, 506, 508, 512]);
    for len in lengths {
        let zero_free: Vec<u8> = (0..len).map(|i| (i % 255) as u8 + 1).collect();
        let with_zeros: Vec<u8> = (0..len).map(|i| (i % 7) as u8).collect();
        for payload in [zero_free, with_zeros] {
            let encoded = cobs_encode(&payload);
            assert_eq!(*encoded.last().unwrap(), 0);
            for &b in &encoded[..encoded.len() - 1] {
                assert_ne!(b, 0);
            }
            let decoded = cobs_decode(&encoded).expect("Should decode");
            assert_eq!(decoded, payload, "length {}", payload.len());
        }
    }
}

#[test]
fn test_cobs_matches_reference_encoder() {
    let samples: Vec<Vec<u8>> = vec![
        vec![],
        vec![0x00],
        vec![0x11, 0x22, 0x00, 0x33],
        (0..254).map(|i| (i % 253) as u8 + 1).collect(),
        (0..255).map(|i| (i % 253) as u8 + 1).collect(),
        (0..508).map(|i| (i % 253) as u8 + 1).collect(),
        (0..300).map(|i| (i % 5) as u8).collect(),
    ];
    for payload in samples {
        let ours = cobs_encode(&payload);
        let mut reference = vec![0u8; corncobs::max_encoded_len(payload.len())];
        let len = corncobs::encode_buf(&payload, &mut reference);
        reference.truncate(len);
        assert_eq!(ours, reference, "payload length {}", payload.len());

        let mut decoded_ref = vec![0u8; ours.len()];
        let n = corncobs::decode_buf(&ours, &mut decoded_ref).expect("reference decode");
        decoded_ref.truncate(n);
        assert_eq!(decoded_ref, payload);
    }
}

#[test]
fn test_cobs_decode_rejects_malformed() {
    // empty input
    assert!(cobs_decode(&[]).is_err());
    // truncated: code byte promises more data than present
    assert!(cobs_decode(&[0x05, 0x11, 0x00]).is_err());
    // no terminating delimiter
    assert!(cobs_decode(&[0x02, 0x11]).is_err());
    // data after the delimiter
    assert!(cobs_decode(&[0x01, 0x00, 0x01, 0x00]).is_err());
}

#[test]
fn test_command_ids() {
    assert_eq!(CommandId::from_byte(0x01), Some(CommandId::GetVersion));
    assert_eq!(CommandId::from_byte(0x03), Some(CommandId::Reboot));
    assert_eq!(CommandId::from_byte(0x10), Some(CommandId::LoraTx));
    assert_eq!(CommandId::from_byte(0xFE), None);
    assert_eq!(CommandId::GetVersion.as_byte(), 0x01);
    assert_eq!(CommandId::Reboot.as_byte(), 0x03);
    assert_eq!(CommandId::LoraTx.as_byte(), 0x10);
}

#[test]
fn test_status_bytes() {
    assert_eq!(ResponseStatus::Success.as_byte(), 0x00);
    assert_eq!(ResponseStatus::InvalidCommand.as_byte(), 0x01);
    assert_eq!(ResponseStatus::InvalidLength.as_byte(), 0x02);
    assert_eq!(ResponseStatus::CrcError.as_byte(), 0x03);
    assert_eq!(ResponseStatus::InvalidVersion.as_byte(), 0x04);
    assert_eq!(ResponseStatus::LoraError.as_byte(), 0x10);
    assert_eq!(ResponseStatus::Timeout.as_byte(), 0x11);
    assert_eq!(ResponseStatus::from_byte(0x04), Some(ResponseStatus::InvalidVersion));
    assert_eq!(ResponseStatus::from_byte(0x7F), None);
}

#[test]
fn test_command_round_trip_all_kinds() {
    let parser = CommandParser::new();
    for cmd in [
        Command::GetVersion,
        Command::Reboot,
        Command::LoraTx { data: vec![0x01] },
        Command::LoraTx { data: (0..=255).collect() },
    ] {
        let (id, payload): (u8, Vec<u8>) = match &cmd {
            Command::GetVersion => (0x01, vec![]),
            Command::Reboot => (0x03, vec![]),
            Command::LoraTx { data } => (0x10, data.clone()),
        };
        let frame = build_command_payload(id, &payload);
        let parsed = parser.parse(&frame).expect("round trip should parse");
        assert_eq!(parsed, cmd);
    }
}

#[test]
fn test_parse_response_round_trip() {
    let serialiser = ResponseSerialiser::new();
    for (response, expected_id, expected_payload) in [
        (Response::Version { major: 0, minor: 1, patch: 0 }, ResponseId::Version, vec![0, 1, 0]),
        (Response::TxComplete, ResponseId::TxComplete, vec![]),
        (
            Response::Error { status: ResponseStatus::CrcError, original_command_id: 0x42 },
            ResponseId::Error,
            vec![0x03, 0x42],
        ),
    ] {
        let raw = serialiser.build_raw_frame(&response);
        let (id, payload) = parse_response(&raw).expect("response should parse");
        assert_eq!(id, expected_id);
        assert_eq!(payload, expected_payload);
    }
}

#[test]
fn test_parse_response_rejects_corruption() {
    let serialiser = ResponseSerialiser::new();
    let mut raw = serialiser.build_raw_frame(&Response::TxComplete);
    let len = raw.len();
    raw[len - 2] ^= 0x01;
    assert_eq!(parse_response(&raw), Err(ResponseStatus::CrcError));
    assert_eq!(parse_response(&[0x01, 0x01]), Err(ResponseStatus::InvalidLength));
}
