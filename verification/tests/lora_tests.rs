//! Tests of the mock LoRa radio.

use walkie_textie::lora::{LoraError, LoraRadio, MockLoraRadio, RxPacket};

#[test]
fn test_mock_transmit() {
    let mut radio = MockLoraRadio::new();

    radio.init().expect("init");

    let data = [0x01, 0x02, 0x03];
    radio.transmit(&data).expect("transmit");

    let history = radio.get_tx_history();
    assert_eq!(history.len(), 1);
    assert_eq!(history[0].as_slice(), &data);
}

#[test]
fn test_mock_receive_queued() {
    let mut radio = MockLoraRadio::new();

    let data: Vec<u8> = vec![0x48, 0x65, 0x6C, 0x6C, 0x6F];

    radio.queue_rx_packet(RxPacket { data: data.clone(), rssi: -50, snr: 10 });

    let packet = radio.receive(1000).expect("receive");
    assert_eq!(packet.data.as_slice(), data.as_slice());
    assert_eq!(packet.rssi, -50);
    assert_eq!(packet.snr, 10);
}

#[test]
fn test_mock_receive_timeout() {
    let mut radio = MockLoraRadio::new();

    let result = radio.receive(1000);
    assert_eq!(result, Err(LoraError::Timeout));
}

#[test]
fn test_mock_tx_error() {
    let mut radio = MockLoraRadio::new();

    radio.set_next_tx_error(LoraError::TransmitFailed);

    let result = radio.transmit(&[0x01]);
    assert_eq!(result, Err(LoraError::TransmitFailed));

    // the forced error is consumed, the next call succeeds
    radio.transmit(&[0x02]).expect("transmit after error");
}

#[test]
fn test_mock_rx_error_consumed() {
    let mut radio = MockLoraRadio::new();

    radio.queue_rx_packet(RxPacket { data: vec![0x11], rssi: -60, snr: 3 });
    radio.set_next_rx_error(LoraError::CrcError);

    assert_eq!(radio.receive(100), Err(LoraError::CrcError));
    let packet = radio.receive(100).expect("receive after error");
    assert_eq!(packet.data.as_slice(), &[0x11]);
}

#[test]
fn test_mock_receive_fifo_order() {
    let mut radio = MockLoraRadio::new();
    radio.queue_rx_packet(RxPacket { data: vec![0x01], rssi: -10, snr: 1 });
    radio.queue_rx_packet(RxPacket { data: vec![0x02], rssi: -20, snr: 2 });

    assert_eq!(radio.receive(10).expect("first").data, vec![0x01]);
    assert_eq!(radio.receive(10).expect("second").data, vec![0x02]);
    assert_eq!(radio.receive(10), Err(LoraError::Timeout));
}

#[test]
fn test_mock_transmit_rejects_bad_lengths() {
    let mut radio = MockLoraRadio::new();
    assert_eq!(radio.transmit(&[]), Err(LoraError::InvalidConfig));
    let oversized = vec![0u8; 257];
    assert_eq!(radio.transmit(&oversized), Err(LoraError::InvalidConfig));
    assert_eq!(radio.get_tx_history().len(), 0);
}

#[test]
fn test_mock_configure_recorded() {
    let mut radio = MockLoraRadio::new();
    assert!(radio.get_config().is_none());
    let config = walkie_textie::lora::LoraConfig::default();
    radio.configure(&config).expect("configure");
    let recorded = radio.get_config().clone().expect("config recorded");
    assert_eq!(recorded, config);
    assert!(!radio.is_initialised());
    radio.init().expect("init");
    assert!(radio.is_initialised());
}
