//! End-to-end scenarios over the mock transports and radios: a host
//! frame in, through the reader, the dispatcher, the response bus
//! filter and the writer, and back out as wire bytes.

use walkie_textie::cobs::{cobs_decode, cobs_encode};
use walkie_textie::config::{VERSION_MAJOR, VERSION_MINOR, VERSION_PATCH};
use walkie_textie::dispatcher::{CommandDispatcher, CommandSource, ResponseMessage};
use walkie_textie::frame::{build_command_payload, CommandParser, ResponseSerialiser};
use walkie_textie::lora::{MockLoraRadio, RxPacket};
use walkie_textie::serial::{MockSerialPort, ReadResult, SerialCommandReader, SerialPort};
use walkie_textie::tasks::{radio_command_step, radio_poll_step, reader_frame_step, writer_step};
use walkie_textie::types::{Command, CommandId, Response, ResponseStatus};

/// One simulated device: serial port, reader, dispatcher, radio.
struct Device {
    port: MockSerialPort,
    reader: SerialCommandReader,
    dispatcher: CommandDispatcher,
    radio: MockLoraRadio,
    serialiser: ResponseSerialiser,
}

impl Device {
    fn new() -> Device {
        Device {
            port: MockSerialPort::new(),
            reader: SerialCommandReader::new(),
            dispatcher: CommandDispatcher::new(),
            radio: MockLoraRadio::new(),
            serialiser: ResponseSerialiser::new(),
        }
    }

    /// Feed one host frame through reader, dispatcher and writer,
    /// and return the decoded response frame written back.
    fn round_trip(&mut self, wire: &[u8]) -> Vec<u8> {
        self.port.queue_rx_data(wire);
        let seq = self.reader.next_sequence_id();
        let msg = match self.reader.read_command(&mut self.port) {
            ReadResult::Command(cmd) => radio_command_step(
                &self.dispatcher,
                &mut self.radio,
                walkie_textie::dispatcher::CommandEnvelope {
                    command: cmd,
                    source: CommandSource::Serial,
                    sequence_id: seq,
                },
            ),
            ReadResult::ParseError(status, id) => ResponseMessage::Command {
                source: CommandSource::Serial,
                sequence_id: seq,
                response: Response::error_raw(status, id),
            },
            ReadResult::SerialError(e) => panic!("serial error: {:?}", e),
        };
        let bytes = writer_step(&self.serialiser, &msg, CommandSource::Serial)
            .expect("own source must receive the reply");
        self.port.write(&bytes).expect("write");
        cobs_decode(&bytes).expect("response frame should decode")
    }
}

fn encoded_command(cmd_id: u8, payload: &[u8]) -> Vec<u8> {
    cobs_encode(&build_command_payload(cmd_id, payload))
}

#[test]
fn test_get_version_over_serial() {
    let mut device = Device::new();
    let decoded = device.round_trip(&encoded_command(0x01, &[]));

    // [version][id][len lo][len hi][major][minor][patch][crc][crc]
    assert_eq!(decoded.len(), 9);
    assert_eq!(decoded[0], 0x01);
    assert_eq!(decoded[1], 0x01);
    assert_eq!(u16::from_le_bytes([decoded[2], decoded[3]]), 3);
    assert_eq!(decoded[4], VERSION_MAJOR);
    assert_eq!(decoded[5], VERSION_MINOR);
    assert_eq!(decoded[6], VERSION_PATCH);
}

#[test]
fn test_lora_tx_then_rx_between_devices() {
    let mut device_a = Device::new();
    let mut device_b = Device::new();

    // device A takes a transmit command over its serial port
    let decoded = device_a.round_trip(&encoded_command(0x10, b"PING"));
    assert_eq!(decoded[1], 0x10, "expected a transmit acknowledgement");

    // the air: what A transmitted arrives at B
    let history = device_a.radio.get_tx_history();
    assert_eq!(history.last().expect("one transmission").as_slice(), b"PING");
    device_b.radio.queue_rx_packet(RxPacket {
        data: history.last().unwrap().clone(),
        rssi: -72,
        snr: 6,
    });

    // device B, with no host command pending, emits an unsolicited report
    let msg = radio_poll_step(&mut device_b.radio).expect("a packet is pending");
    let bytes = writer_step(&device_b.serialiser, &msg, CommandSource::Serial)
        .expect("unsolicited messages reach every subscriber");
    let report = cobs_decode(&bytes).expect("decode");
    assert_eq!(report[1], 0x11);
    let len = u16::from_le_bytes([report[2], report[3]]) as usize;
    assert_eq!(&report[4..4 + len - 3], b"PING");
    let rssi = i16::from_le_bytes([report[4 + len - 3], report[4 + len - 2]]);
    let snr = report[4 + len - 1] as i8;
    assert!(rssi < 0);
    assert!(snr.abs() < 64);
}

#[test]
fn test_source_isolation() {
    let mut device = Device::new();
    let serialiser = ResponseSerialiser::new();

    // client A on serial sends a version query; only A gets the reply
    device.port.queue_rx_data(&encoded_command(0x01, &[]));
    let seq = device.reader.next_sequence_id();
    let cmd = match device.reader.read_command(&mut device.port) {
        ReadResult::Command(c) => c,
        other => panic!("expected command, got {:?}", other),
    };
    let reply = radio_command_step(
        &device.dispatcher,
        &mut device.radio,
        walkie_textie::dispatcher::CommandEnvelope {
            command: cmd,
            source: CommandSource::Serial,
            sequence_id: seq,
        },
    );
    assert!(writer_step(&serialiser, &reply, CommandSource::Serial).is_some());
    assert!(writer_step(&serialiser, &reply, CommandSource::Ble).is_none());

    // immediately afterwards a packet arrives; both subscribers see it
    device.radio.queue_rx_packet(RxPacket { data: vec![0x01, 0x02], rssi: -60, snr: 4 });
    let unsolicited = radio_poll_step(&mut device.radio).expect("packet pending");
    assert!(writer_step(&serialiser, &unsolicited, CommandSource::Serial).is_some());
    assert!(writer_step(&serialiser, &unsolicited, CommandSource::Ble).is_some());
}

#[test]
fn test_malformed_frame_reports_crc_error() {
    let parser = CommandParser::new();
    let mut raw = build_command_payload(0x01, &[]);
    let len = raw.len();
    raw[len - 1] ^= 0x80;
    let wire = cobs_encode(&raw);

    // strip the delimiter as the accumulator would
    let frame: Vec<u8> = wire[..wire.len() - 1].to_vec();
    let result = reader_frame_step(&parser, &frame, CommandSource::Ble, 3);
    match result {
        Err(ResponseMessage::Command { source, sequence_id, response }) => {
            assert_eq!(source, CommandSource::Ble);
            assert_eq!(sequence_id, 3);
            match response {
                Response::Error { status, original_command_id } => {
                    assert_eq!(status, ResponseStatus::CrcError);
                    assert_eq!(original_command_id, 0x01);
                }
                other => panic!("expected error reply, got {:?}", other),
            }
        }
        other => panic!("expected a published error, got {:?}", other),
    }
}

#[test]
fn test_unknown_command_reports_invalid_command() {
    let mut device = Device::new();
    let decoded = device.round_trip(&encoded_command(0xFE, &[]));

    assert_eq!(decoded[1], 0xFF, "expected an error response");
    assert_eq!(decoded[4], ResponseStatus::InvalidCommand.as_byte());
    assert_eq!(decoded[5], 0xFE);
}

#[test]
fn test_back_to_back_stress() {
    let mut device_a = Device::new();
    let mut device_b = Device::new();

    for round in 0..10u8 {
        let payload: Vec<u8> = (0..8).map(|i| i * 3 + round).collect();
        let (tx, rx) = if round % 2 == 0 {
            (&mut device_a, &mut device_b)
        } else {
            (&mut device_b, &mut device_a)
        };

        let decoded = tx.round_trip(&cobs_encode(&build_command_payload(
            CommandId::LoraTx.as_byte(),
            &payload,
        )));
        assert_eq!(decoded[1], 0x10, "round {}: expected acknowledgement", round);

        let sent = tx.radio.get_tx_history().last().expect("transmitted").clone();
        assert_eq!(sent, payload, "round {}: payload corrupted on the air side", round);

        rx.radio.queue_rx_packet(RxPacket { data: sent, rssi: -80, snr: 2 });
        let msg = radio_poll_step(&mut rx.radio).expect("packet pending");
        let bytes = writer_step(&rx.serialiser, &msg, CommandSource::Serial).expect("broadcast");
        let report = cobs_decode(&bytes).expect("decode");
        let len = u16::from_le_bytes([report[2], report[3]]) as usize;
        assert_eq!(
            &report[4..4 + len - 3],
            payload.as_slice(),
            "round {}: payload corrupted on the peer",
            round
        );
    }
}
