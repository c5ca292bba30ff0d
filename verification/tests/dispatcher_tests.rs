//! Tests of the command dispatcher and the response routing filter.

use walkie_textie::config::{VERSION_MAJOR, VERSION_MINOR, VERSION_PATCH};
use walkie_textie::dispatcher::{should_deliver, CommandDispatcher, CommandSource, ResponseMessage};
use walkie_textie::lora::{LoraError, LoraRadio, MockLoraRadio};
use walkie_textie::types::{Command, Response, ResponseStatus};

#[test]
fn test_dispatch_get_version() {
    let dispatcher = CommandDispatcher::new();
    let mut radio = MockLoraRadio::new();

    let response = dispatcher.dispatch(&mut radio, Command::GetVersion);

    match response {
        Response::Version { major, minor, patch } => {
            assert_eq!(major, VERSION_MAJOR);
            assert_eq!(minor, VERSION_MINOR);
            assert_eq!(patch, VERSION_PATCH);
        }
        _ => panic!("Expected Version response"),
    }
}

#[test]
fn test_dispatch_lora_tx() {
    let dispatcher = CommandDispatcher::new();
    let mut radio = MockLoraRadio::new();

    radio.init().expect("init");

    let data: Vec<u8> = vec![0x48, 0x65, 0x6C, 0x6C, 0x6F];

    let response = dispatcher.dispatch(&mut radio, Command::LoraTx { data: data.clone() });

    assert!(matches!(response, Response::TxComplete));

    let history = radio.get_tx_history();
    assert_eq!(history.len(), 1);
    assert_eq!(history[0].as_slice(), data.as_slice());
}

#[test]
fn test_dispatch_lora_tx_error() {
    let dispatcher = CommandDispatcher::new();
    let mut radio = MockLoraRadio::new();

    radio.set_next_tx_error(LoraError::TransmitFailed);

    let data: Vec<u8> = vec![0x01];

    let response = dispatcher.dispatch(&mut radio, Command::LoraTx { data });

    match response {
        Response::Error { status, .. } => {
            assert_eq!(status, ResponseStatus::LoraError);
        }
        _ => panic!("Expected Error response"),
    }
}

#[test]
fn test_dispatch_timeout_maps_to_timeout_status() {
    let dispatcher = CommandDispatcher::new();
    let mut radio = MockLoraRadio::new();

    radio.set_next_tx_error(LoraError::Timeout);

    let response = dispatcher.dispatch(&mut radio, Command::LoraTx { data: vec![0x01] });

    match response {
        Response::Error { status, original_command_id } => {
            assert_eq!(status, ResponseStatus::Timeout);
            assert_eq!(original_command_id, 0x10);
        }
        _ => panic!("Expected Error response"),
    }
}

#[test]
fn test_dispatch_other_errors_map_to_lora_error() {
    let dispatcher = CommandDispatcher::new();
    for forced in [
        LoraError::CrcError,
        LoraError::TransmitFailed,
        LoraError::SpiError,
        LoraError::BusyTimeout,
        LoraError::NotInitialised,
    ] {
        let mut radio = MockLoraRadio::new();
        radio.set_next_tx_error(forced);
        let response = dispatcher.dispatch(&mut radio, Command::LoraTx { data: vec![0x01] });
        match response {
            Response::Error { status, original_command_id } => {
                assert_eq!(status, ResponseStatus::LoraError);
                assert_eq!(original_command_id, 0x10);
            }
            _ => panic!("Expected Error response"),
        }
        assert_eq!(radio.get_tx_history().len(), 0);
    }
}

#[test]
fn test_dispatch_reboot_not_handled_here() {
    let dispatcher = CommandDispatcher::new();
    let mut radio = MockLoraRadio::new();

    let response = dispatcher.dispatch(&mut radio, Command::Reboot);
    match response {
        Response::Error { status, original_command_id } => {
            assert_eq!(status, ResponseStatus::InvalidCommand);
            assert_eq!(original_command_id, 0x03);
        }
        _ => panic!("Expected Error response"),
    }
}

#[test]
fn test_command_reply_filtered_by_source() {
    let msg = ResponseMessage::Command {
        source: CommandSource::Serial,
        sequence_id: 7,
        response: Response::TxComplete,
    };
    assert!(should_deliver(&msg, CommandSource::Serial));
    assert!(!should_deliver(&msg, CommandSource::Ble));
    assert!(!should_deliver(&msg, CommandSource::WiFi));
}

#[test]
fn test_unsolicited_delivered_to_all() {
    let msg = ResponseMessage::Unsolicited(Response::RxPacket {
        data: vec![0x01],
        rssi: -40,
        snr: 5,
    });
    assert!(should_deliver(&msg, CommandSource::Serial));
    assert!(should_deliver(&msg, CommandSource::Ble));
    assert!(should_deliver(&msg, CommandSource::WiFi));
}
