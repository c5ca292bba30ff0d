//! Tests of the SX1262 register computations and the driver's
//! command transcript against the mock port.

use walkie_textie::ble::{ble_random_address, format_device_name};
use walkie_textie::lora::{LoraConfig, LoraError};
use walkie_textie::sx1262::{
    bandwidth_to_code, coding_rate_to_code, decode_rssi, decode_snr, frequency_to_register,
    ldro_flag, ocp_register_value, receive_irq_outcome, rx_timeout_value, transmit_outcome,
    tx_power_byte, MockRadioPort, Sx1262Driver,
};

#[test]
fn test_frequency_register_default() {
    // 869.525 MHz: round(869525000 * 2^25 / 32 MHz)
    assert_eq!(frequency_to_register(869525000), 911763046);
    assert_eq!(frequency_to_register(869525000), 0x36586666);
}

#[test]
fn test_bandwidth_codes() {
    assert_eq!(bandwidth_to_code(7), 0x00);
    assert_eq!(bandwidth_to_code(10), 0x08);
    assert_eq!(bandwidth_to_code(15), 0x01);
    assert_eq!(bandwidth_to_code(20), 0x09);
    assert_eq!(bandwidth_to_code(31), 0x02);
    assert_eq!(bandwidth_to_code(41), 0x0A);
    assert_eq!(bandwidth_to_code(62), 0x03);
    assert_eq!(bandwidth_to_code(125), 0x04);
    assert_eq!(bandwidth_to_code(250), 0x05);
    assert_eq!(bandwidth_to_code(500), 0x06);
    // unknown bandwidths default to the 125 kHz code
    assert_eq!(bandwidth_to_code(99), 0x04);
}

#[test]
fn test_coding_rate_codes() {
    assert_eq!(coding_rate_to_code(5), 0x01);
    assert_eq!(coding_rate_to_code(6), 0x02);
    assert_eq!(coding_rate_to_code(7), 0x03);
    assert_eq!(coding_rate_to_code(8), 0x04);
    assert_eq!(coding_rate_to_code(9), 0x01);
}

#[test]
fn test_ldro_flag() {
    assert_eq!(ldro_flag(11, 125), 0x01);
    assert_eq!(ldro_flag(12, 62), 0x01);
    assert_eq!(ldro_flag(11, 250), 0x00);
    assert_eq!(ldro_flag(10, 125), 0x00);
}

#[test]
fn test_ocp_register_value() {
    // 140 mA / 2.5 = 56
    assert_eq!(ocp_register_value(140), 56);
    // clamped at 63
    assert_eq!(ocp_register_value(1000), 63);
    assert_eq!(ocp_register_value(0), 0);
}

#[test]
fn test_tx_power_byte() {
    assert_eq!(tx_power_byte(22), 22);
    assert_eq!(tx_power_byte(0), 0);
    // two's complement of -9
    assert_eq!(tx_power_byte(-9), 247);
}

#[test]
fn test_rx_timeout_value() {
    assert_eq!(rx_timeout_value(0), 0);
    // 1000 ms = 1000000 us, one step per 16 us
    assert_eq!(rx_timeout_value(1000), 62500);
    // clamped to 24 bits
    assert_eq!(rx_timeout_value(3000000), 0xFFFFFF);
}

#[test]
fn test_decode_rssi() {
    assert_eq!(decode_rssi(100), -50);
    assert_eq!(decode_rssi(101), -50);
    assert_eq!(decode_rssi(0), 0);
    assert_eq!(decode_rssi(255), -127);
}

#[test]
fn test_decode_snr() {
    // positive quarters
    assert_eq!(decode_snr(40), 10);
    assert_eq!(decode_snr(3), 0);
    // negative two's complement quarters, truncated towards zero
    assert_eq!(decode_snr(0xF8), -2);
    assert_eq!(decode_snr(0xFF), 0);
    assert_eq!(decode_snr(0x80), -32);
}

#[test]
fn test_transmit_outcome_decision() {
    assert_eq!(transmit_outcome(0x0001), Ok(()));
    assert_eq!(transmit_outcome(0x0243), Ok(()));
    assert_eq!(transmit_outcome(0x0000), Err(LoraError::TransmitFailed));
    assert_eq!(transmit_outcome(0x0200), Err(LoraError::TransmitFailed));
}

#[test]
fn test_receive_irq_outcome_precedence() {
    assert_eq!(receive_irq_outcome(0x0002), Ok(()));
    assert_eq!(receive_irq_outcome(0x0200), Err(LoraError::Timeout));
    // a latched timeout outranks a CRC error
    assert_eq!(receive_irq_outcome(0x0240), Err(LoraError::Timeout));
    // a CRC error outranks the done flag
    assert_eq!(receive_irq_outcome(0x0042), Err(LoraError::CrcError));
    assert_eq!(receive_irq_outcome(0x0000), Err(LoraError::ReceiveFailed));
}

#[test]
fn test_driver_requires_initialisation() {
    let mut driver = Sx1262Driver::new(MockRadioPort::new());
    assert_eq!(driver.transmit(&[0x01]), Err(LoraError::NotInitialised));
    assert!(matches!(driver.receive(100), Err(LoraError::NotInitialised)));
}

#[test]
fn test_driver_init_command_sequence() {
    let mut driver = Sx1262Driver::new(MockRadioPort::new());
    driver.init().expect("init");

    let port = driver.into_port();
    let written = port.get_written();
    let opcodes: Vec<u8> = written.iter().map(|(op, _)| *op).collect();
    assert_eq!(
        opcodes,
        vec![
            0x80, // standby
            0x97, // TCXO control
            0x9D, // DIO2 as RF switch
            0x0D, // write register: current cap
            0x8A, // packet type
            0x8F, // buffer bases
            0x80, 0x86, 0x8B, 0x95, 0x8E, // configure
            0x80, 0x8C, 0x08, 0x02, 0x82, // arm continuous receive
        ]
    );

    // the current cap register write
    assert_eq!(written[3].1.as_slice(), &[0x08, 0xE7, 56]);
    // the default frequency, big-endian register value
    assert_eq!(written[7].1.as_slice(), &[0x36, 0x58, 0x66, 0x66]);
    // the default modulation: SF11, 250 kHz, 4/8, no low-data-rate flag
    assert_eq!(written[8].1.as_slice(), &[11, 0x05, 0x04, 0x00]);
    // the transmit power: +22 dBm, 200 us ramp
    assert_eq!(written[10].1.as_slice(), &[22, 0x04]);
    // continuous receive marker
    assert_eq!(written[15].1.as_slice(), &[0xFF, 0xFF, 0xFF]);
}

#[test]
fn test_driver_transmit_sequence_and_outcome() {
    // the interrupt line reads high; the IRQ status read will
    // report the transmit-done flag
    let mut port = MockRadioPort::new();
    port.script_read(vec![0x00, 0x01]);
    let mut driver = Sx1262Driver::new(port);
    driver.init().expect("init");

    driver.transmit(b"HI").expect("transmit");

    let port = driver.into_port();
    let written = port.get_written();
    let tail: Vec<u8> = written[16..].iter().map(|(op, _)| *op).collect();
    assert_eq!(
        tail,
        vec![
            0x80, // standby
            0x8C, // packet params for two bytes
            0x0E, // write buffer
            0x08, // arm transmit-done
            0x02, // clear
            0x83, // transmit
            0x02, // clear after the interrupt
            0x80, 0x8C, 0x08, 0x02, 0x82, // back to continuous receive
        ]
    );
    // the payload written to the buffer at offset zero
    assert_eq!(written[18].1.as_slice(), &[0x00, 0x48, 0x49]);
    // the packet length byte
    assert_eq!(written[17].1.as_slice(), &[0x00, 0x08, 0x00, 2, 0x01, 0x00]);
}

#[test]
fn test_driver_transmit_failure_without_tx_done() {
    // the interrupt fires but the status lacks the transmit-done bit
    let mut port = MockRadioPort::new();
    port.script_read(vec![0x02, 0x00]);
    let mut driver = Sx1262Driver::new(port);
    driver.init().expect("init");

    assert_eq!(driver.transmit(b"HI"), Err(LoraError::TransmitFailed));
}

#[test]
fn test_driver_transmit_rejects_bad_lengths() {
    let mut driver = Sx1262Driver::new(MockRadioPort::new());
    driver.init().expect("init");
    assert_eq!(driver.transmit(&[]), Err(LoraError::InvalidConfig));
    let oversized = vec![0u8; 257];
    assert_eq!(driver.transmit(&oversized), Err(LoraError::InvalidConfig));
}

#[test]
fn test_driver_receive_packet() {
    let mut port = MockRadioPort::new();
    // IRQ status: receive done
    port.script_read(vec![0x00, 0x02]);
    // buffer status: five bytes at offset zero
    port.script_read(vec![5, 0]);
    // the payload
    port.script_read(vec![0x50, 0x49, 0x4E, 0x47, 0x21]);
    // packet status: raw RSSI 100, raw SNR 40
    port.script_read(vec![100, 40, 0]);
    let mut driver = Sx1262Driver::new(port);
    driver.init().expect("init");

    let packet = driver.receive(500).expect("receive");
    assert_eq!(packet.data.as_slice(), b"PING!");
    assert_eq!(packet.rssi, -50);
    assert_eq!(packet.snr, 10);
}

#[test]
fn test_driver_receive_timeout_flag() {
    let mut port = MockRadioPort::new();
    port.script_read(vec![0x02, 0x00]);
    let mut driver = Sx1262Driver::new(port);
    driver.init().expect("init");
    assert!(matches!(driver.receive(500), Err(LoraError::Timeout)));
}

#[test]
fn test_driver_receive_crc_error_flag() {
    let mut port = MockRadioPort::new();
    port.script_read(vec![0x00, 0x40]);
    let mut driver = Sx1262Driver::new(port);
    driver.init().expect("init");
    assert!(matches!(driver.receive(500), Err(LoraError::CrcError)));
}

#[test]
fn test_driver_receive_dead_line_times_out() {
    let mut port = MockRadioPort::new();
    port.set_dio1(false);
    let mut driver = Sx1262Driver::new(port);
    driver.init().expect("init");
    assert!(matches!(driver.receive(1), Err(LoraError::Timeout)));
}

#[test]
fn test_driver_configure_updates_config() {
    let mut driver = Sx1262Driver::new(MockRadioPort::new());
    let config = LoraConfig {
        frequency_hz: 868000000,
        spreading_factor: 7,
        bandwidth_khz: 125,
        coding_rate: 5,
        tx_power_dbm: -9,
    };
    driver.configure(&config).expect("configure");
    let port = driver.into_port();
    let written = port.get_written();
    // modulation: SF7, 125 kHz, 4/5, no low-data-rate flag
    assert_eq!(written[2].1.as_slice(), &[7, 0x04, 0x01, 0x00]);
    // power byte: two's complement of -9
    assert_eq!(written[4].1.as_slice(), &[247, 0x04]);
}

#[test]
fn test_device_name_formatting() {
    let name = format_device_name(&[0xA1, 0xB2, 0xC3]);
    assert_eq!(name.as_slice(), b"WalkieTextie-A1B2C3".as_slice());
    let name = format_device_name(&[0x00, 0x0F, 0xFF]);
    assert_eq!(name.as_slice(), b"WalkieTextie-000FFF".as_slice());
}

#[test]
fn test_ble_random_address() {
    let addr = ble_random_address(&[0x12, 0x34, 0x56]);
    assert_eq!(addr.as_slice(), &[0x12, 0x34, 0x56, 0x1E, 0x83, 0xE7]);
}
