//! SX1262 radio driver: the register-level command sequences.
//!
//! The driver talks to the radio through a [`RadioPort`], which
//! performs one SPI transaction per call: the firmware shell
//! implements it over the SPI bus and the NSS, BUSY, DIO1 and NRST
//! pins, and the mock port records the traffic for tests. The port
//! keeps a ghost log of every command written; each driver operation
//! is proved to write exactly the documented command sequence.
//!
//! All register values are computed by small verified functions with
//! exact contracts: the frequency register, the bandwidth, coding
//! rate and low-data-rate codes, the over-current cap, the two's
//! complement power byte, the receive timeout encoding, and the
//! signed RSSI and SNR decodings.

use vstd::prelude::*;

use crate::config::{MAX_LORA_PAYLOAD, TCXO_VOLTAGE_CODE};
use crate::lora::{LoraConfig, LoraError, RxPacket};

verus! {

/// Command opcodes of the SX1262.
pub const OP_SET_STANDBY: u8 = 0x80;
pub const OP_SET_TX: u8 = 0x83;
pub const OP_SET_RX: u8 = 0x82;
pub const OP_SET_RF_FREQUENCY: u8 = 0x86;
pub const OP_SET_PACKET_TYPE: u8 = 0x8A;
pub const OP_SET_MODULATION_PARAMS: u8 = 0x8B;
pub const OP_SET_PACKET_PARAMS: u8 = 0x8C;
pub const OP_SET_BUFFER_BASE_ADDRESS: u8 = 0x8F;
pub const OP_SET_PA_CONFIG: u8 = 0x95;
pub const OP_SET_DIO3_AS_TCXO_CTRL: u8 = 0x97;
pub const OP_SET_DIO2_AS_RF_SWITCH_CTRL: u8 = 0x9D;
pub const OP_SET_TX_PARAMS: u8 = 0x8E;
pub const OP_WRITE_BUFFER: u8 = 0x0E;
pub const OP_READ_BUFFER: u8 = 0x1E;
pub const OP_WRITE_REGISTER: u8 = 0x0D;
pub const OP_GET_RX_BUFFER_STATUS: u8 = 0x13;
pub const OP_GET_PACKET_STATUS: u8 = 0x14;
pub const OP_GET_IRQ_STATUS: u8 = 0x12;
pub const OP_CLEAR_IRQ_STATUS: u8 = 0x02;
pub const OP_SET_DIO_IRQ_PARAMS: u8 = 0x08;

/// Over-current protection register address.
pub const REG_OCP_CONFIGURATION: u16 = 0x08E7;

/// IRQ source bits.
pub const IRQ_TX_DONE: u16 = 0x0001;
pub const IRQ_RX_DONE: u16 = 0x0002;
pub const IRQ_TIMEOUT: u16 = 0x0200;
pub const IRQ_CRC_ERR: u16 = 0x0040;

/// The IRQ sources armed while receiving.
pub const IRQ_RX_GROUP: u16 = 0x0242;

/// The current cap programmed at initialisation, in milliamperes.
pub const OCP_CURRENT_MA: u16 = 140;

/// Software deadline of a transmission, in milliseconds.
pub const TX_DEADLINE_MS: u32 = 10000;

/// One SPI command written to the radio: opcode and argument bytes.
pub struct SpiCommand {
    pub opcode: u8,
    pub args: Seq<u8>,
}

/// Control pins of the SX1262.
pub struct Sx1262Pins<Nss, Dio1, Nrst, Busy> {
    pub nss: Nss,
    pub dio1: Dio1,
    pub nrst: Nrst,
    pub busy: Busy,
}

/// One SPI transaction per call against the radio.
///
/// Every command waits for BUSY to drop before it starts, so a port
/// reports exactly two errors: the BUSY line stayed high past the
/// bounded wait, or the SPI transfer failed. The ghost log records
/// every command written, so driver operations can be held to the
/// exact sequences they program.
pub trait RadioPort: Sized {
    /// Commands written to the radio so far, oldest first.
    spec fn log(&self) -> Seq<SpiCommand>;

    /// Pulse the reset line and wait for the radio to wake.
    fn reset(&mut self) -> (r: Result<(), LoraError>)
        ensures
            final(self).log() == old(self).log(),
            r matches Err(e) ==> e == LoraError::BusyTimeout || e == LoraError::SpiError,
    ;

    /// Write one command: opcode then argument bytes.
    fn write_command(&mut self, opcode: u8, args: &[u8]) -> (r: Result<(), LoraError>)
        ensures
            r is Ok ==> final(self).log() == old(self).log().push(
                SpiCommand { opcode, args: args@ },
            ),
            r is Err ==> final(self).log() == old(self).log(),
            r matches Err(e) ==> e == LoraError::BusyTimeout || e == LoraError::SpiError,
    ;

    /// Issue a read command and return `len` bytes of its response,
    /// the status byte already stripped.
    fn read_command(&mut self, opcode: u8, len: usize) -> (r: Result<Vec<u8>, LoraError>)
        ensures
            final(self).log() == old(self).log(),
            r matches Ok(v) ==> v@.len() == len,
            r matches Err(e) ==> e == LoraError::BusyTimeout || e == LoraError::SpiError,
    ;

    /// Read `len` bytes from the radio's data buffer at an offset.
    fn read_buffer(&mut self, offset: u8, len: usize) -> (r: Result<Vec<u8>, LoraError>)
        ensures
            final(self).log() == old(self).log(),
            r matches Ok(v) ==> v@.len() == len,
            r matches Err(e) ==> e == LoraError::BusyTimeout || e == LoraError::SpiError,
    ;

    /// Whether the interrupt line is high.
    fn dio1_is_high(&mut self) -> (r: bool)
        ensures
            final(self).log() == old(self).log(),
    ;

    /// Wait for the given number of microseconds.
    fn delay_us(&mut self, us: u32)
        ensures
            final(self).log() == old(self).log(),
    ;

    /// Wait for the given number of milliseconds.
    fn delay_ms(&mut self, ms: u32)
        ensures
            final(self).log() == old(self).log(),
    ;
}

/// Big-endian bytes of a 16-bit value.
pub open spec fn be16(x: u16) -> Seq<u8> {
    seq![(x / 256) as u8, (x % 256) as u8]
}

/// Big-endian bytes of a 24-bit value.
pub open spec fn be24(x: u32) -> Seq<u8> {
    seq![((x / 0x10000) % 256) as u8, ((x / 256) % 256) as u8, (x % 256) as u8]
}

/// Big-endian bytes of a 32-bit value.
pub open spec fn be32(x: u32) -> Seq<u8> {
    seq![(x / 0x1000000) as u8, ((x / 0x10000) % 256) as u8, ((x / 256) % 256) as u8, (
        x % 256
    ) as u8]
}

/// The frequency register value: `freq_hz * 2^25 / 32 MHz`.
pub open spec fn spec_frequency_register(freq_hz: u32) -> u32 {
    (((freq_hz as int) * 0x2000000) / 32000000) as u32
}

/// Compute the frequency register value.
pub fn frequency_to_register(freq_hz: u32) -> (r: u32)
    ensures
        r == spec_frequency_register(freq_hz),
{
    let scaled: u64 = (freq_hz as u64) * 0x2000000;
    let reg: u64 = scaled / 32000000;
    #[verifier::truncate] (reg as u32)
}

/// The datasheet code of a bandwidth given in whole kHz, defaulting
/// to the 125 kHz code for unknown values.
pub open spec fn spec_bandwidth_code(khz: u32) -> u8 {
    if khz == 7 || khz == 8 {
        0x00
    } else if khz == 10 {
        0x08
    } else if khz == 15 || khz == 16 {
        0x01
    } else if khz == 20 || khz == 21 {
        0x09
    } else if khz == 31 {
        0x02
    } else if khz == 41 || khz == 42 {
        0x0A
    } else if khz == 62 || khz == 63 {
        0x03
    } else if khz == 125 {
        0x04
    } else if khz == 250 {
        0x05
    } else if khz == 500 {
        0x06
    } else {
        0x04
    }
}

/// Map a bandwidth in kHz to its datasheet code.
pub fn bandwidth_to_code(khz: u32) -> (r: u8)
    ensures
        r == spec_bandwidth_code(khz),
{
    match khz {
        7 | 8 => 0x00,
        10 => 0x08,
        15 | 16 => 0x01,
        20 | 21 => 0x09,
        31 => 0x02,
        41 | 42 => 0x0A,
        62 | 63 => 0x03,
        125 => 0x04,
        250 => 0x05,
        500 => 0x06,
        _ => 0x04,
    }
}

/// The code of a coding rate denominator: 5 to 8 map to 1 to 4,
/// anything else defaults to the 4/5 code.
pub open spec fn spec_coding_rate_code(cr: u8) -> u8 {
    if 5 <= cr <= 8 {
        (cr - 4) as u8
    } else {
        0x01
    }
}

/// Map a coding rate denominator to its datasheet code.
pub fn coding_rate_to_code(cr: u8) -> (r: u8)
    ensures
        r == spec_coding_rate_code(cr),
{
    if 5 <= cr && cr <= 8 {
        cr - 4
    } else {
        0x01
    }
}

/// The low-data-rate optimisation flag: set for a spreading factor
/// of 11 or more at 125 kHz bandwidth or below.
pub open spec fn spec_ldro_flag(sf: u8, bw_khz: u32) -> u8 {
    if sf >= 11 && bw_khz <= 125 {
        0x01
    } else {
        0x00
    }
}

/// Compute the low-data-rate optimisation flag.
pub fn ldro_flag(sf: u8, bw_khz: u32) -> (r: u8)
    ensures
        r == spec_ldro_flag(sf, bw_khz),
{
    if sf >= 11 && bw_khz <= 125 {
        0x01
    } else {
        0x00
    }
}

/// The over-current protection register value: the cap in
/// milliamperes divided by 2.5, clamped to 63.
pub open spec fn spec_ocp_value(current_ma: u16) -> u8 {
    if (current_ma * 10) / 25 >= 63 {
        63
    } else {
        (((current_ma * 10) / 25)) as u8
    }
}

/// Compute the over-current protection register value.
pub fn ocp_register_value(current_ma: u16) -> (r: u8)
    ensures
        r == spec_ocp_value(current_ma),
{
    let scaled: u32 = (current_ma as u32) * 10;
    let value: u32 = scaled / 25;
    if value >= 63 {
        63
    } else {
        value as u8
    }
}

/// The power byte of the transmit parameters: the signed dBm value
/// in two's complement.
pub open spec fn spec_tx_power_byte(power_dbm: i8) -> u8 {
    if power_dbm < 0 {
        (256 + power_dbm) as u8
    } else {
        power_dbm as u8
    }
}

/// Compute the power byte: non-negative values map to themselves,
/// negative ones to 256 plus the value.
pub fn tx_power_byte(power_dbm: i8) -> (r: u8)
    ensures
        r == spec_tx_power_byte(power_dbm),
        power_dbm >= 0 ==> r == power_dbm,
        power_dbm < 0 ==> r == 256 + power_dbm,
{
    if power_dbm < 0 {
        let wide: i16 = (power_dbm as i16) + 256;
        wide as u8
    } else {
        power_dbm as u8
    }
}

/// The 24-bit receive timeout encoding: the timeout in milliseconds
/// times 1000 over 16 (one step per 15.625 microseconds,
/// approximated), clamped to 24 bits; zero asks for no radio-side
/// timeout.
pub open spec fn spec_rx_timeout_value(timeout_ms: u32) -> u32 {
    if timeout_ms == 0 {
        0
    } else if (timeout_ms * 1000) / 16 >= 0xFFFFFF {
        0xFFFFFF
    } else {
        (((timeout_ms * 1000) / 16)) as u32
    }
}

/// Compute the receive timeout encoding.
pub fn rx_timeout_value(timeout_ms: u32) -> (r: u32)
    ensures
        r == spec_rx_timeout_value(timeout_ms),
{
    if timeout_ms == 0 {
        return 0;
    }
    let us: u64 = (timeout_ms as u64) * 1000;
    let value: u64 = us / 16;
    if value >= 0xFFFFFF {
        0xFFFFFF
    } else {
        value as u32
    }
}

/// The RSSI in dBm decoded from its raw byte: minus the raw value
/// over two.
pub open spec fn spec_rssi_of_raw(raw: u8) -> int {
    -((raw as int) / 2)
}

/// Decode the RSSI byte of the packet status.
pub fn decode_rssi(raw: u8) -> (r: i16)
    ensures
        r as int == spec_rssi_of_raw(raw),
        -127 <= r <= 0,
{
    let half: u8 = raw / 2;
    0 - (half as i16)
}

/// The SNR in dB decoded from its raw byte: the byte read as a
/// signed two's complement value, divided by four towards zero.
pub open spec fn spec_snr_of_raw(raw: u8) -> int {
    if raw < 128 {
        (raw as int) / 4
    } else {
        -((256 - (raw as int)) / 4)
    }
}

/// Decode the SNR byte of the packet status.
pub fn decode_snr(raw: u8) -> (r: i8)
    ensures
        r as int == spec_snr_of_raw(raw),
        -32 <= r <= 31,
{
    if raw < 128 {
        (raw / 4) as i8
    } else {
        let negated: u16 = 256 - (raw as u16);
        let quarter: u16 = negated / 4;
        0 - (quarter as i8)
    }
}

/// Whether an IRQ status includes a source bit.
pub fn irq_has(status: u16, mask: u16) -> (r: bool)
    ensures
        r == ((status & mask) != 0),
{
    status & mask != 0
}

/// The outcome of a transmission, decided by the latched interrupt
/// word: done exactly when the TX_DONE bit is set.
pub open spec fn spec_transmit_outcome(irq_status: u16) -> Result<(), LoraError> {
    if irq_status & IRQ_TX_DONE != 0 {
        Ok(())
    } else {
        Err(LoraError::TransmitFailed)
    }
}

/// Decide a transmission from the latched interrupt word.
pub fn transmit_outcome(irq_status: u16) -> (r: Result<(), LoraError>)
    ensures
        r == spec_transmit_outcome(irq_status),
{
    if irq_has(irq_status, IRQ_TX_DONE) {
        Ok(())
    } else {
        Err(LoraError::TransmitFailed)
    }
}

/// The outcome of a reception, decided by the latched interrupt
/// word, in order of precedence: a latched timeout, then a CRC
/// error, then a missing receive-done flag; otherwise a packet is
/// ready to be read out.
pub open spec fn spec_receive_irq_outcome(irq_status: u16) -> Result<(), LoraError> {
    if irq_status & IRQ_TIMEOUT != 0 {
        Err(LoraError::Timeout)
    } else if irq_status & IRQ_CRC_ERR != 0 {
        Err(LoraError::CrcError)
    } else if irq_status & IRQ_RX_DONE == 0 {
        Err(LoraError::ReceiveFailed)
    } else {
        Ok(())
    }
}

/// Decide a reception from the latched interrupt word.
pub fn receive_irq_outcome(irq_status: u16) -> (r: Result<(), LoraError>)
    ensures
        r == spec_receive_irq_outcome(irq_status),
{
    if irq_has(irq_status, IRQ_TIMEOUT) {
        Err(LoraError::Timeout)
    } else if irq_has(irq_status, IRQ_CRC_ERR) {
        Err(LoraError::CrcError)
    } else if !irq_has(irq_status, IRQ_RX_DONE) {
        Err(LoraError::ReceiveFailed)
    } else {
        Ok(())
    }
}

/// The standby command, RC oscillator mode.
pub open spec fn cmd_set_standby() -> SpiCommand {
    SpiCommand { opcode: OP_SET_STANDBY, args: seq![0x00u8] }
}

/// The TCXO control command: voltage code and 24-bit startup delay.
pub open spec fn cmd_set_tcxo() -> SpiCommand {
    SpiCommand { opcode: OP_SET_DIO3_AS_TCXO_CTRL, args: seq![TCXO_VOLTAGE_CODE] + be24(0x140) }
}

/// The DIO2-as-RF-switch command.
pub open spec fn cmd_set_dio2_rf_switch() -> SpiCommand {
    SpiCommand { opcode: OP_SET_DIO2_AS_RF_SWITCH_CTRL, args: seq![0x01u8] }
}

/// A register write command: 16-bit address then the value.
pub open spec fn cmd_write_register(addr: u16, value: u8) -> SpiCommand {
    SpiCommand { opcode: OP_WRITE_REGISTER, args: be16(addr) + seq![value] }
}

/// The LoRa packet type command.
pub open spec fn cmd_set_packet_type_lora() -> SpiCommand {
    SpiCommand { opcode: OP_SET_PACKET_TYPE, args: seq![0x01u8] }
}

/// The buffer base address command: transmit base, receive base.
pub open spec fn cmd_set_buffer_base(tx_base: u8, rx_base: u8) -> SpiCommand {
    SpiCommand { opcode: OP_SET_BUFFER_BASE_ADDRESS, args: seq![tx_base, rx_base] }
}

/// The frequency command: the register value, big-endian.
pub open spec fn cmd_set_rf_frequency(freq_hz: u32) -> SpiCommand {
    SpiCommand { opcode: OP_SET_RF_FREQUENCY, args: be32(spec_frequency_register(freq_hz)) }
}

/// The modulation parameters command: spreading factor, bandwidth
/// code, coding rate code, low-data-rate flag.
pub open spec fn cmd_set_modulation_params(config: LoraConfig) -> SpiCommand {
    SpiCommand {
        opcode: OP_SET_MODULATION_PARAMS,
        args: seq![
            config.spreading_factor,
            spec_bandwidth_code(config.bandwidth_khz),
            spec_coding_rate_code(config.coding_rate),
            spec_ldro_flag(config.spreading_factor, config.bandwidth_khz),
        ],
    }
}

/// The packet parameters command: preamble of 8 symbols, explicit
/// header, the payload length byte, CRC on, standard IQ.
pub open spec fn cmd_set_packet_params(payload_len: u8) -> SpiCommand {
    SpiCommand {
        opcode: OP_SET_PACKET_PARAMS,
        args: seq![0x00u8, 0x08u8, 0x00u8, payload_len, 0x01u8, 0x00u8],
    }
}

/// The power amplifier configuration for high-power output.
pub open spec fn cmd_set_pa_config() -> SpiCommand {
    SpiCommand { opcode: OP_SET_PA_CONFIG, args: seq![0x04u8, 0x07u8, 0x00u8, 0x01u8] }
}

/// The transmit parameters command: power byte and 200 microsecond
/// ramp time.
pub open spec fn cmd_set_tx_params(power_dbm: i8) -> SpiCommand {
    SpiCommand { opcode: OP_SET_TX_PARAMS, args: seq![spec_tx_power_byte(power_dbm), 0x04u8] }
}

/// The IRQ routing command: the mask armed and routed to DIO1.
pub open spec fn cmd_set_dio_irq_params(mask: u16) -> SpiCommand {
    SpiCommand {
        opcode: OP_SET_DIO_IRQ_PARAMS,
        args: be16(mask) + be16(mask) + seq![0x00u8, 0x00u8, 0x00u8, 0x00u8],
    }
}

/// The IRQ clear command.
pub open spec fn cmd_clear_irq(mask: u16) -> SpiCommand {
    SpiCommand { opcode: OP_CLEAR_IRQ_STATUS, args: be16(mask) }
}

/// The write-buffer command: offset then payload.
pub open spec fn cmd_write_buffer(offset: u8, data: Seq<u8>) -> SpiCommand {
    SpiCommand { opcode: OP_WRITE_BUFFER, args: seq![offset] + data }
}

/// The transmit command with no radio-side timeout.
pub open spec fn cmd_set_tx_no_timeout() -> SpiCommand {
    SpiCommand { opcode: OP_SET_TX, args: seq![0x00u8, 0x00u8, 0x00u8] }
}

/// The receive command with a 24-bit timeout encoding.
pub open spec fn cmd_set_rx(timeout_value: u32) -> SpiCommand {
    SpiCommand { opcode: OP_SET_RX, args: be24(timeout_value) }
}

/// The command sequence of one configuration pass.
pub open spec fn spec_configure_commands(config: LoraConfig) -> Seq<SpiCommand> {
    seq![
        cmd_set_standby(),
        cmd_set_rf_frequency(config.frequency_hz),
        cmd_set_modulation_params(config),
        cmd_set_pa_config(),
        cmd_set_tx_params(config.tx_power_dbm),
    ]
}

/// The command sequence that arms continuous receive.
pub open spec fn spec_start_receive_commands() -> Seq<SpiCommand> {
    seq![
        cmd_set_standby(),
        cmd_set_packet_params(0xFF),
        cmd_set_dio_irq_params(IRQ_RX_GROUP),
        cmd_clear_irq(0xFFFF),
        cmd_set_rx(0xFFFFFF),
    ]
}

/// The command sequence of initialisation, up to and including
/// arming continuous receive.
pub open spec fn spec_init_commands() -> Seq<SpiCommand> {
    seq![
        cmd_set_standby(),
        cmd_set_tcxo(),
        cmd_set_dio2_rf_switch(),
        cmd_write_register(REG_OCP_CONFIGURATION, spec_ocp_value(OCP_CURRENT_MA)),
        cmd_set_packet_type_lora(),
        cmd_set_buffer_base(0x00, 0x80),
    ] + spec_configure_commands(LoraConfig::spec_default()) + spec_start_receive_commands()
}

/// The command sequence that starts a transmission of `data`.
///
/// The packet-length register is eight bits wide, so the length byte
/// is the payload length modulo 256: the largest allowed payload,
/// 256 bytes, programs zero, which the register cannot express
/// otherwise.
pub open spec fn spec_transmit_commands(data: Seq<u8>) -> Seq<SpiCommand> {
    seq![
        cmd_set_standby(),
        cmd_set_packet_params((data.len() % 256) as u8),
        cmd_write_buffer(0x00, data),
        cmd_set_dio_irq_params(IRQ_TX_DONE),
        cmd_clear_irq(0xFFFF),
        cmd_set_tx_no_timeout(),
    ]
}

/// The command sequence that starts a one-shot receive.
pub open spec fn spec_receive_commands(timeout_ms: u32) -> Seq<SpiCommand> {
    seq![
        cmd_set_standby(),
        cmd_set_packet_params(0xFF),
        cmd_set_dio_irq_params(IRQ_RX_GROUP),
        cmd_clear_irq(0xFFFF),
        cmd_set_rx(spec_rx_timeout_value(timeout_ms)),
    ]
}

/// SX1262 driver over a radio port.
pub struct Sx1262Driver<P: RadioPort> {
    port: P,
    initialised: bool,
    config: Option<LoraConfig>,
}

impl<P: RadioPort> Sx1262Driver<P> {
    /// The commands written to the radio so far.
    pub closed spec fn log(&self) -> Seq<SpiCommand> {
        self.port.log()
    }

    /// Whether initialisation has completed.
    pub closed spec fn spec_initialised(&self) -> bool {
        self.initialised
    }

    /// The configuration last applied, if any.
    pub closed spec fn spec_config(&self) -> Option<LoraConfig> {
        self.config
    }

    /// Create a new driver over a port.
    pub fn new(port: P) -> (r: Sx1262Driver<P>)
        ensures
            r.log() == port.log(),
            !r.spec_initialised(),
            r.spec_config() is None,
    {
        Sx1262Driver { port, initialised: false, config: None }
    }

    /// Borrow the underlying port.
    pub fn port_ref(&self) -> (r: &P)
        ensures
            r.log() == self.log(),
    {
        &self.port
    }

    /// Take the underlying port back, consuming the driver.
    pub fn into_port(self) -> (r: P)
        ensures
            r.log() == self.log(),
    {
        self.port
    }

    /// Set standby mode, RC oscillator.
    fn set_standby_internal(&mut self) -> (r: Result<(), LoraError>)
        ensures
            r is Ok ==> final(self).log() == old(self).log().push(cmd_set_standby()),
            r is Err ==> final(self).log() == old(self).log(),
            r matches Err(e) ==> e == LoraError::BusyTimeout || e == LoraError::SpiError,
            final(self).spec_initialised() == old(self).spec_initialised(),
            final(self).spec_config() == old(self).spec_config(),
    {
        let mut args: Vec<u8> = Vec::new();
        args.push(0x00);
        proof {
            assert(args@ =~= cmd_set_standby().args);
        }
        self.port.write_command(OP_SET_STANDBY, args.as_slice())
    }

    /// Configure DIO3 as TCXO control: 1.8 V, about 5 ms startup.
    fn configure_tcxo(&mut self) -> (r: Result<(), LoraError>)
        ensures
            r is Ok ==> final(self).log() == old(self).log().push(cmd_set_tcxo()),
            r is Err ==> final(self).log() == old(self).log(),
            r matches Err(e) ==> e == LoraError::BusyTimeout || e == LoraError::SpiError,
            final(self).spec_initialised() == old(self).spec_initialised(),
            final(self).spec_config() == old(self).spec_config(),
    {
        let mut args: Vec<u8> = Vec::new();
        args.push(TCXO_VOLTAGE_CODE);
        args.push(0x00);
        args.push(0x01);
        args.push(0x40);
        proof {
            assert(args@ =~= cmd_set_tcxo().args);
        }
        self.port.write_command(OP_SET_DIO3_AS_TCXO_CTRL, args.as_slice())
    }

    /// Configure DIO2 as the RF switch control.
    fn configure_dio2_rf_switch(&mut self) -> (r: Result<(), LoraError>)
        ensures
            r is Ok ==> final(self).log() == old(self).log().push(cmd_set_dio2_rf_switch()),
            r is Err ==> final(self).log() == old(self).log(),
            r matches Err(e) ==> e == LoraError::BusyTimeout || e == LoraError::SpiError,
            final(self).spec_initialised() == old(self).spec_initialised(),
            final(self).spec_config() == old(self).spec_config(),
    {
        let mut args: Vec<u8> = Vec::new();
        args.push(0x01);
        proof {
            assert(args@ =~= cmd_set_dio2_rf_switch().args);
        }
        self.port.write_command(OP_SET_DIO2_AS_RF_SWITCH_CTRL, args.as_slice())
    }

    /// Write one radio register.
    fn write_register(&mut self, addr: u16, value: u8) -> (r: Result<(), LoraError>)
        ensures
            r is Ok ==> final(self).log() == old(self).log().push(cmd_write_register(addr, value)),
            r is Err ==> final(self).log() == old(self).log(),
            r matches Err(e) ==> e == LoraError::BusyTimeout || e == LoraError::SpiError,
            final(self).spec_initialised() == old(self).spec_initialised(),
            final(self).spec_config() == old(self).spec_config(),
    {
        let mut args: Vec<u8> = Vec::new();
        args.push((addr / 256) as u8);
        args.push((addr % 256) as u8);
        args.push(value);
        proof {
            assert(args@ =~= cmd_write_register(addr, value).args);
        }
        self.port.write_command(OP_WRITE_REGISTER, args.as_slice())
    }

    /// Cap the supply current through the over-current protection
    /// register.
    fn set_current_limit(&mut self, current_ma: u16) -> (r: Result<(), LoraError>)
        ensures
            r is Ok ==> final(self).log() == old(self).log().push(
                cmd_write_register(REG_OCP_CONFIGURATION, spec_ocp_value(current_ma)),
            ),
            r is Err ==> final(self).log() == old(self).log(),
            r matches Err(e) ==> e == LoraError::BusyTimeout || e == LoraError::SpiError,
            final(self).spec_initialised() == old(self).spec_initialised(),
            final(self).spec_config() == old(self).spec_config(),
    {
        let value = ocp_register_value(current_ma);
        self.write_register(REG_OCP_CONFIGURATION, value)
    }

    /// Select the LoRa packet type.
    fn set_packet_type_lora(&mut self) -> (r: Result<(), LoraError>)
        ensures
            r is Ok ==> final(self).log() == old(self).log().push(cmd_set_packet_type_lora()),
            r is Err ==> final(self).log() == old(self).log(),
            r matches Err(e) ==> e == LoraError::BusyTimeout || e == LoraError::SpiError,
            final(self).spec_initialised() == old(self).spec_initialised(),
            final(self).spec_config() == old(self).spec_config(),
    {
        let mut args: Vec<u8> = Vec::new();
        args.push(0x01);
        proof {
            assert(args@ =~= cmd_set_packet_type_lora().args);
        }
        self.port.write_command(OP_SET_PACKET_TYPE, args.as_slice())
    }

    /// Set the transmit and receive buffer base addresses.
    fn set_buffer_base_address(&mut self, tx_base: u8, rx_base: u8) -> (r: Result<(), LoraError>)
        ensures
            r is Ok ==> final(self).log() == old(self).log().push(
                cmd_set_buffer_base(tx_base, rx_base),
            ),
            r is Err ==> final(self).log() == old(self).log(),
            r matches Err(e) ==> e == LoraError::BusyTimeout || e == LoraError::SpiError,
            final(self).spec_initialised() == old(self).spec_initialised(),
            final(self).spec_config() == old(self).spec_config(),
    {
        let mut args: Vec<u8> = Vec::new();
        args.push(tx_base);
        args.push(rx_base);
        proof {
            assert(args@ =~= cmd_set_buffer_base(tx_base, rx_base).args);
        }
        self.port.write_command(OP_SET_BUFFER_BASE_ADDRESS, args.as_slice())
    }

    /// Program the RF frequency, big-endian register value.
    fn set_frequency(&mut self, freq_hz: u32) -> (r: Result<(), LoraError>)
        ensures
            r is Ok ==> final(self).log() == old(self).log().push(cmd_set_rf_frequency(freq_hz)),
            r is Err ==> final(self).log() == old(self).log(),
            r matches Err(e) ==> e == LoraError::BusyTimeout || e == LoraError::SpiError,
            final(self).spec_initialised() == old(self).spec_initialised(),
            final(self).spec_config() == old(self).spec_config(),
    {
        let reg = frequency_to_register(freq_hz);
        let mut args: Vec<u8> = Vec::new();
        args.push((reg / 0x1000000) as u8);
        args.push(((reg / 0x10000) % 256) as u8);
        args.push(((reg / 256) % 256) as u8);
        args.push((reg % 256) as u8);
        proof {
            assert(args@ =~= cmd_set_rf_frequency(freq_hz).args);
        }
        self.port.write_command(OP_SET_RF_FREQUENCY, args.as_slice())
    }

    /// Program the modulation parameters: spreading factor,
    /// bandwidth code, coding rate code, low-data-rate flag.
    fn set_modulation_params(&mut self, config: &LoraConfig) -> (r: Result<(), LoraError>)
        ensures
            r is Ok ==> final(self).log() == old(self).log().push(
                cmd_set_modulation_params(*config),
            ),
            r is Err ==> final(self).log() == old(self).log(),
            r matches Err(e) ==> e == LoraError::BusyTimeout || e == LoraError::SpiError,
            final(self).spec_initialised() == old(self).spec_initialised(),
            final(self).spec_config() == old(self).spec_config(),
    {
        let bw = bandwidth_to_code(config.bandwidth_khz);
        let cr = coding_rate_to_code(config.coding_rate);
        let ldro = ldro_flag(config.spreading_factor, config.bandwidth_khz);
        let mut args: Vec<u8> = Vec::new();
        args.push(config.spreading_factor);
        args.push(bw);
        args.push(cr);
        args.push(ldro);
        proof {
            assert(args@ =~= cmd_set_modulation_params(*config).args);
        }
        self.port.write_command(OP_SET_MODULATION_PARAMS, args.as_slice())
    }

    /// Program the packet parameters for one payload length byte.
    fn set_packet_params(&mut self, payload_len: u8) -> (r: Result<(), LoraError>)
        ensures
            r is Ok ==> final(self).log() == old(self).log().push(
                cmd_set_packet_params(payload_len),
            ),
            r is Err ==> final(self).log() == old(self).log(),
            r matches Err(e) ==> e == LoraError::BusyTimeout || e == LoraError::SpiError,
            final(self).spec_initialised() == old(self).spec_initialised(),
            final(self).spec_config() == old(self).spec_config(),
    {
        let mut args: Vec<u8> = Vec::new();
        args.push(0x00);
        args.push(0x08);
        args.push(0x00);
        args.push(payload_len);
        args.push(0x01);
        args.push(0x00);
        proof {
            assert(args@ =~= cmd_set_packet_params(payload_len).args);
        }
        self.port.write_command(OP_SET_PACKET_PARAMS, args.as_slice())
    }

    /// Configure the power amplifier for high-power output.
    fn configure_pa(&mut self) -> (r: Result<(), LoraError>)
        ensures
            r is Ok ==> final(self).log() == old(self).log().push(cmd_set_pa_config()),
            r is Err ==> final(self).log() == old(self).log(),
            r matches Err(e) ==> e == LoraError::BusyTimeout || e == LoraError::SpiError,
            final(self).spec_initialised() == old(self).spec_initialised(),
            final(self).spec_config() == old(self).spec_config(),
    {
        let mut args: Vec<u8> = Vec::new();
        args.push(0x04);
        args.push(0x07);
        args.push(0x00);
        args.push(0x01);
        proof {
            assert(args@ =~= cmd_set_pa_config().args);
        }
        self.port.write_command(OP_SET_PA_CONFIG, args.as_slice())
    }

    /// Program the transmit power and ramp time.
    fn set_tx_power(&mut self, power_dbm: i8) -> (r: Result<(), LoraError>)
        ensures
            r is Ok ==> final(self).log() == old(self).log().push(cmd_set_tx_params(power_dbm)),
            r is Err ==> final(self).log() == old(self).log(),
            r matches Err(e) ==> e == LoraError::BusyTimeout || e == LoraError::SpiError,
            final(self).spec_initialised() == old(self).spec_initialised(),
            final(self).spec_config() == old(self).spec_config(),
    {
        let power = tx_power_byte(power_dbm);
        let mut args: Vec<u8> = Vec::new();
        args.push(power);
        args.push(0x04);
        proof {
            assert(args@ =~= cmd_set_tx_params(power_dbm).args);
        }
        self.port.write_command(OP_SET_TX_PARAMS, args.as_slice())
    }

    /// Arm the given IRQ sources and route them to DIO1.
    fn configure_irq(&mut self, mask: u16) -> (r: Result<(), LoraError>)
        ensures
            r is Ok ==> final(self).log() == old(self).log().push(cmd_set_dio_irq_params(mask)),
            r is Err ==> final(self).log() == old(self).log(),
            r matches Err(e) ==> e == LoraError::BusyTimeout || e == LoraError::SpiError,
            final(self).spec_initialised() == old(self).spec_initialised(),
            final(self).spec_config() == old(self).spec_config(),
    {
        let hi: u8 = (mask / 256) as u8;
        let lo: u8 = (mask % 256) as u8;
        let mut args: Vec<u8> = Vec::new();
        args.push(hi);
        args.push(lo);
        args.push(hi);
        args.push(lo);
        args.push(0x00);
        args.push(0x00);
        args.push(0x00);
        args.push(0x00);
        proof {
            assert(args@ =~= cmd_set_dio_irq_params(mask).args);
        }
        self.port.write_command(OP_SET_DIO_IRQ_PARAMS, args.as_slice())
    }

    /// Clear the given IRQ flags.
    fn clear_irq(&mut self, mask: u16) -> (r: Result<(), LoraError>)
        ensures
            r is Ok ==> final(self).log() == old(self).log().push(cmd_clear_irq(mask)),
            r is Err ==> final(self).log() == old(self).log(),
            r matches Err(e) ==> e == LoraError::BusyTimeout || e == LoraError::SpiError,
            final(self).spec_initialised() == old(self).spec_initialised(),
            final(self).spec_config() == old(self).spec_config(),
    {
        let mut args: Vec<u8> = Vec::new();
        args.push((mask / 256) as u8);
        args.push((mask % 256) as u8);
        proof {
            assert(args@ =~= cmd_clear_irq(mask).args);
        }
        self.port.write_command(OP_CLEAR_IRQ_STATUS, args.as_slice())
    }

    /// Read the latched IRQ status, big-endian.
    fn get_irq_status(&mut self) -> (r: Result<u16, LoraError>)
        ensures
            final(self).log() == old(self).log(),
            r matches Err(e) ==> e == LoraError::BusyTimeout || e == LoraError::SpiError,
            final(self).spec_initialised() == old(self).spec_initialised(),
            final(self).spec_config() == old(self).spec_config(),
    {
        match self.port.read_command(OP_GET_IRQ_STATUS, 2) {
            Ok(v) => Ok((v[0] as u16) * 256 + (v[1] as u16)),
            Err(e) => Err(e),
        }
    }

    /// Write a payload into the transmit buffer at an offset.
    fn write_buffer(&mut self, offset: u8, data: &[u8]) -> (r: Result<(), LoraError>)
        ensures
            r is Ok ==> final(self).log() == old(self).log().push(cmd_write_buffer(offset, data@)),
            r is Err ==> final(self).log() == old(self).log(),
            r matches Err(e) ==> e == LoraError::BusyTimeout || e == LoraError::SpiError,
            final(self).spec_initialised() == old(self).spec_initialised(),
            final(self).spec_config() == old(self).spec_config(),
    {
        let mut args: Vec<u8> = Vec::new();
        args.push(offset);
        let mut k: usize = 0;
        while k < data.len()
            invariant
                k <= data@.len(),
                args@ == seq![offset] + data@.take(k as int),
            decreases data@.len() - k,
        {
            args.push(data[k]);
            k = k + 1;
            assert(args@ =~= seq![offset] + data@.take(k as int));
        }
        proof {
            assert(args@ =~= cmd_write_buffer(offset, data@).args);
        }
        self.port.write_command(OP_WRITE_BUFFER, args.as_slice())
    }

    /// Start a transmission with no radio-side timeout.
    fn send_set_tx(&mut self) -> (r: Result<(), LoraError>)
        ensures
            r is Ok ==> final(self).log() == old(self).log().push(cmd_set_tx_no_timeout()),
            r is Err ==> final(self).log() == old(self).log(),
            r matches Err(e) ==> e == LoraError::BusyTimeout || e == LoraError::SpiError,
            final(self).spec_initialised() == old(self).spec_initialised(),
            final(self).spec_config() == old(self).spec_config(),
    {
        let mut args: Vec<u8> = Vec::new();
        args.push(0x00);
        args.push(0x00);
        args.push(0x00);
        proof {
            assert(args@ =~= cmd_set_tx_no_timeout().args);
        }
        self.port.write_command(OP_SET_TX, args.as_slice())
    }

    /// Start a reception with a 24-bit timeout encoding.
    fn send_set_rx(&mut self, timeout_value: u32) -> (r: Result<(), LoraError>)
        requires
            timeout_value <= 0xFFFFFF,
        ensures
            r is Ok ==> final(self).log() == old(self).log().push(cmd_set_rx(timeout_value)),
            r is Err ==> final(self).log() == old(self).log(),
            r matches Err(e) ==> e == LoraError::BusyTimeout || e == LoraError::SpiError,
            final(self).spec_initialised() == old(self).spec_initialised(),
            final(self).spec_config() == old(self).spec_config(),
    {
        let mut args: Vec<u8> = Vec::new();
        args.push(((timeout_value / 0x10000) % 256) as u8);
        args.push(((timeout_value / 256) % 256) as u8);
        args.push((timeout_value % 256) as u8);
        proof {
            assert(args@ =~= cmd_set_rx(timeout_value).args);
        }
        self.port.write_command(OP_SET_RX, args.as_slice())
    }

    /// Poll DIO1 until it rises or the software deadline passes,
    /// then read the IRQ status.
    fn wait_for_irq(&mut self, timeout_ms: u32) -> (r: Result<u16, LoraError>)
        ensures
            final(self).log() == old(self).log(),
            r matches Err(e) ==> e == LoraError::Timeout || e == LoraError::BusyTimeout || e
                == LoraError::SpiError,
            final(self).spec_initialised() == old(self).spec_initialised(),
            final(self).spec_config() == old(self).spec_config(),
    {
        let mut polls: u64 = (timeout_ms as u64) * 10;
        loop
            invariant
                self.log() == old(self).log(),
                self.spec_initialised() == old(self).spec_initialised(),
                self.spec_config() == old(self).spec_config(),
            decreases polls,
        {
            if self.port.dio1_is_high() {
                return self.get_irq_status();
            }
            if polls == 0 {
                return Err(LoraError::Timeout);
            }
            self.port.delay_us(100);
            polls = polls - 1;
        }
    }

    /// Arm continuous receive: standby, maximum packet length,
    /// receive IRQ sources, clear, then receive with the continuous
    /// timeout marker.
    fn start_receive_mode(&mut self) -> (r: Result<(), LoraError>)
        ensures
            r is Ok ==> final(self).log() == old(self).log() + spec_start_receive_commands(),
            r matches Err(e) ==> (e == LoraError::BusyTimeout || e == LoraError::SpiError)
                && exists|k: int|
                0 <= k <= spec_start_receive_commands().len() && final(self).log() == old(self).log() + #[trigger] spec_start_receive_commands().take(k),
            final(self).spec_initialised() == old(self).spec_initialised(),
            final(self).spec_config() == old(self).spec_config(),
    {
        let ghost l0 = self.log();
        let ghost cmds = spec_start_receive_commands();
        if let Err(e) = self.set_standby_internal() {
            proof {
                assert(self.log() =~= l0 + cmds.take(0));
            }
            return Err(e);
        }
        if let Err(e) = self.set_packet_params(0xFF) {
            proof {
                assert(self.log() =~= l0 + cmds.take(1));
            }
            return Err(e);
        }
        if let Err(e) = self.configure_irq(IRQ_RX_GROUP) {
            proof {
                assert(self.log() =~= l0 + cmds.take(2));
            }
            return Err(e);
        }
        if let Err(e) = self.clear_irq(0xFFFF) {
            proof {
                assert(self.log() =~= l0 + cmds.take(3));
            }
            return Err(e);
        }
        if let Err(e) = self.send_set_rx(0xFFFFFF) {
            proof {
                assert(self.log() =~= l0 + cmds.take(4));
            }
            return Err(e);
        }
        proof {
            assert(self.log() =~= l0 + spec_start_receive_commands());
        }
        Ok(())
    }

    /// Apply a configuration: standby, frequency, modulation, power
    /// amplifier, transmit power.
    pub fn configure(&mut self, config: &LoraConfig) -> (r: Result<(), LoraError>)
        ensures
            r is Ok ==> final(self).log() == old(self).log() + spec_configure_commands(*config)
                && final(self).spec_config() == Some(*config),
            r matches Err(e) ==> (e == LoraError::BusyTimeout || e == LoraError::SpiError)
                && final(self).spec_config() == old(self).spec_config() && exists|k: int|
                0 <= k <= spec_configure_commands(*config).len() && final(self).log() == old(self).log() + #[trigger] spec_configure_commands(*config).take(k),
            final(self).spec_initialised() == old(self).spec_initialised(),
    {
        let ghost l0 = self.log();
        let ghost cmds = spec_configure_commands(*config);
        if let Err(e) = self.set_standby_internal() {
            proof {
                assert(self.log() =~= l0 + cmds.take(0));
            }
            return Err(e);
        }
        if let Err(e) = self.set_frequency(config.frequency_hz) {
            proof {
                assert(self.log() =~= l0 + cmds.take(1));
            }
            return Err(e);
        }
        if let Err(e) = self.set_modulation_params(config) {
            proof {
                assert(self.log() =~= l0 + cmds.take(2));
            }
            return Err(e);
        }
        if let Err(e) = self.configure_pa() {
            proof {
                assert(self.log() =~= l0 + cmds.take(3));
            }
            return Err(e);
        }
        if let Err(e) = self.set_tx_power(config.tx_power_dbm) {
            proof {
                assert(self.log() =~= l0 + cmds.take(4));
            }
            return Err(e);
        }
        self.config = Some(
            LoraConfig {
                frequency_hz: config.frequency_hz,
                spreading_factor: config.spreading_factor,
                bandwidth_khz: config.bandwidth_khz,
                coding_rate: config.coding_rate,
                tx_power_dbm: config.tx_power_dbm,
            },
        );
        proof {
            assert(self.log() =~= l0 + spec_configure_commands(*config));
        }
        Ok(())
    }

    /// Initialise the radio: hardware reset, standby, TCXO, RF
    /// switch, current cap, LoRa packet type, buffer bases, default
    /// configuration, then continuous receive.
    pub fn init(&mut self) -> (r: Result<(), LoraError>)
        ensures
            r is Ok ==> final(self).spec_initialised() && final(self).log() == old(self).log()
                + spec_init_commands() && final(self).spec_config() == Some(
                LoraConfig::spec_default(),
            ),
            r is Err ==> final(self).spec_initialised() == old(self).spec_initialised(),
            r is Err ==> final(self).spec_config() == old(self).spec_config() || final(self).spec_config() == Some(LoraConfig::spec_default()),
            r matches Err(e) ==> (e == LoraError::BusyTimeout || e == LoraError::SpiError)
                && exists|k: int|
                0 <= k <= spec_init_commands().len() && final(self).log() == old(self).log()
                    + #[trigger] spec_init_commands().take(k),
    {
        let ghost l0 = self.log();
        let ghost cmds = spec_init_commands();
        if let Err(e) = self.port.reset() {
            proof {
                assert(self.log() =~= l0 + cmds.take(0));
            }
            return Err(e);
        }
        if let Err(e) = self.set_standby_internal() {
            proof {
                assert(self.log() =~= l0 + cmds.take(0));
            }
            return Err(e);
        }
        if let Err(e) = self.configure_tcxo() {
            proof {
                assert(self.log() =~= l0 + cmds.take(1));
            }
            return Err(e);
        }
        self.port.delay_ms(10);
        if let Err(e) = self.configure_dio2_rf_switch() {
            proof {
                assert(self.log() =~= l0 + cmds.take(2));
            }
            return Err(e);
        }
        if let Err(e) = self.set_current_limit(OCP_CURRENT_MA) {
            proof {
                assert(self.log() =~= l0 + cmds.take(3));
            }
            return Err(e);
        }
        if let Err(e) = self.set_packet_type_lora() {
            proof {
                assert(self.log() =~= l0 + cmds.take(4));
            }
            return Err(e);
        }
        if let Err(e) = self.set_buffer_base_address(0x00, 0x80) {
            proof {
                assert(self.log() =~= l0 + cmds.take(5));
            }
            return Err(e);
        }
        let default_config = LoraConfig::default();
        let ghost l6 = self.log();
        if let Err(e) = self.configure(&default_config) {
            proof {
                let j = choose|j: int|
                    0 <= j <= spec_configure_commands(default_config).len() && self.log() == l6
                        + #[trigger] spec_configure_commands(default_config).take(j);
                assert(self.log() =~= l0 + cmds.take(6 + j));
            }
            return Err(e);
        }
        let ghost l11 = self.log();
        if let Err(e) = self.start_receive_mode() {
            proof {
                let j = choose|j: int|
                    0 <= j <= spec_start_receive_commands().len() && self.log() == l11
                        + #[trigger] spec_start_receive_commands().take(j);
                assert(self.log() =~= l0 + cmds.take(11 + j));
            }
            return Err(e);
        }
        self.initialised = true;
        proof {
            assert(self.log() =~= l0 + spec_init_commands());
        }
        Ok(())
    }

    /// Transmit a payload: program the packet, write the buffer, arm
    /// the transmit-done interrupt, start, wait for the interrupt
    /// under the software deadline, then return to continuous
    /// receive. Succeeds only when the radio is initialised, the
    /// payload holds 1 to 256 bytes and the transmit-done interrupt
    /// latched; an interrupt without the transmit-done bit reports a
    /// failed transmission, with the radio re-armed all the same,
    /// and a silent interrupt line reports a timeout. The length
    /// byte is the payload length modulo 256, as the eight-bit
    /// register demands.
    pub fn transmit(&mut self, data: &[u8]) -> (r: Result<(), LoraError>)
        ensures
            r == Err::<(), LoraError>(LoraError::NotInitialised) <==> !old(self).spec_initialised(),
            !old(self).spec_initialised() ==> *final(self) == *old(self),
            old(self).spec_initialised() ==> (r == Err::<(), LoraError>(LoraError::InvalidConfig)
                <==> data@.len() == 0 || data@.len() > MAX_LORA_PAYLOAD),
            old(self).spec_initialised() && (data@.len() == 0 || data@.len() > MAX_LORA_PAYLOAD)
                ==> *final(self) == *old(self),
            final(self).spec_initialised() == old(self).spec_initialised(),
            final(self).spec_config() == old(self).spec_config(),
            r is Ok ==> old(self).spec_initialised() && 1 <= data@.len() <= MAX_LORA_PAYLOAD
                && final(self).log() == old(self).log() + spec_transmit_commands(data@) + seq![
                cmd_clear_irq(0xFFFF),
            ] + spec_start_receive_commands(),
            r == Err::<(), LoraError>(LoraError::TransmitFailed) ==> old(self).spec_initialised()
                && 1 <= data@.len() <= MAX_LORA_PAYLOAD && final(self).log() == old(self).log()
                + spec_transmit_commands(data@) + seq![cmd_clear_irq(0xFFFF)]
                + spec_start_receive_commands(),
            r == Err::<(), LoraError>(LoraError::Timeout) ==> old(self).spec_initialised()
                && final(self).log() == old(self).log() + spec_transmit_commands(data@),
    {
        if !self.initialised {
            return Err(LoraError::NotInitialised);
        }
        if data.len() == 0 || data.len() > MAX_LORA_PAYLOAD {
            return Err(LoraError::InvalidConfig);
        }
        let ghost l0 = self.log();
        self.set_standby_internal()?;
        let len_byte: u8 = (data.len() % 256) as u8;
        self.set_packet_params(len_byte)?;
        self.write_buffer(0x00, data)?;
        self.configure_irq(IRQ_TX_DONE)?;
        self.clear_irq(0xFFFF)?;
        self.send_set_tx()?;
        proof {
            assert(self.log() =~= l0 + spec_transmit_commands(data@));
        }
        let irq_status = self.wait_for_irq(TX_DEADLINE_MS)?;
        self.clear_irq(0xFFFF)?;
        self.start_receive_mode()?;
        proof {
            assert(self.log() =~= l0 + spec_transmit_commands(data@) + seq![
                cmd_clear_irq(0xFFFF),
            ] + spec_start_receive_commands());
        }
        transmit_outcome(irq_status)
    }

    /// Receive one packet: program the packet, arm the receive IRQ
    /// sources, start with the encoded timeout, wait under the
    /// software deadline, then read the payload and its signal
    /// metadata in one sequence. The latched interrupt word decides
    /// the outcome, timeout before CRC error before a missing
    /// receive-done flag; any of the three leaves the interrupt
    /// cleared after the full receive command sequence.
    pub fn receive(&mut self, timeout_ms: u32) -> (r: Result<RxPacket, LoraError>)
        ensures
            r == Err::<RxPacket, LoraError>(LoraError::NotInitialised) <==> !old(self).spec_initialised(),
            !old(self).spec_initialised() ==> *final(self) == *old(self),
            final(self).spec_initialised() == old(self).spec_initialised(),
            final(self).spec_config() == old(self).spec_config(),
            r matches Ok(p) ==> old(self).spec_initialised() && p@.wf() && -127 <= p.rssi <= 0
                && -32 <= p.snr <= 31 && final(self).log() == old(self).log()
                + spec_receive_commands(timeout_ms) + seq![cmd_clear_irq(0xFFFF)],
            r == Err::<RxPacket, LoraError>(LoraError::CrcError) ==> old(self).spec_initialised()
                && final(self).log() == old(self).log() + spec_receive_commands(timeout_ms)
                + seq![cmd_clear_irq(0xFFFF)],
            r == Err::<RxPacket, LoraError>(LoraError::ReceiveFailed) ==> old(self).spec_initialised() && final(self).log() == old(self).log() + spec_receive_commands(
                timeout_ms,
            ) + seq![cmd_clear_irq(0xFFFF)],
            r == Err::<RxPacket, LoraError>(LoraError::Timeout) ==> old(self).spec_initialised()
                && (final(self).log() == old(self).log() + spec_receive_commands(timeout_ms)
                || final(self).log() == old(self).log() + spec_receive_commands(timeout_ms)
                + seq![cmd_clear_irq(0xFFFF)]),
    {
        if !self.initialised {
            return Err(LoraError::NotInitialised);
        }
        let ghost l0 = self.log();
        self.set_standby_internal()?;
        self.set_packet_params(0xFF)?;
        self.configure_irq(IRQ_RX_GROUP)?;
        self.clear_irq(0xFFFF)?;
        let timeout_value = rx_timeout_value(timeout_ms);
        self.send_set_rx(timeout_value)?;
        proof {
            assert(self.log() =~= l0 + spec_receive_commands(timeout_ms));
        }
        let deadline: u32 = if timeout_ms >= 0xFFFFFFFF - 1000 {
            0xFFFFFFFF
        } else {
            timeout_ms + 1000
        };
        let irq_status = self.wait_for_irq(deadline)?;
        self.clear_irq(0xFFFF)?;
        proof {
            assert(self.log() =~= l0 + spec_receive_commands(timeout_ms) + seq![
                cmd_clear_irq(0xFFFF),
            ]);
        }
        if let Err(e) = receive_irq_outcome(irq_status) {
            return Err(e);
        }
        let status = match self.port.read_command(OP_GET_RX_BUFFER_STATUS, 2) {
            Ok(v) => v,
            Err(e) => {
                return Err(e);
            },
        };
        let payload_len: u8 = status[0];
        let buffer_offset: u8 = status[1];
        let data = match self.port.read_buffer(buffer_offset, payload_len as usize) {
            Ok(v) => v,
            Err(e) => {
                return Err(e);
            },
        };
        let packet_status = match self.port.read_command(OP_GET_PACKET_STATUS, 3) {
            Ok(v) => v,
            Err(e) => {
                return Err(e);
            },
        };
        let rssi = decode_rssi(packet_status[0]);
        let snr = decode_snr(packet_status[1]);
        proof {
            assert(self.log() =~= l0 + spec_receive_commands(timeout_ms) + seq![
                cmd_clear_irq(0xFFFF),
            ]);
        }
        Ok(RxPacket { data, rssi, snr })
    }

    /// Put the radio into standby.
    pub fn set_standby(&mut self) -> (r: Result<(), LoraError>)
        ensures
            r is Ok ==> final(self).log() == old(self).log().push(cmd_set_standby()),
            r is Err ==> final(self).log() == old(self).log(),
            r matches Err(e) ==> e == LoraError::BusyTimeout || e == LoraError::SpiError,
            final(self).spec_initialised() == old(self).spec_initialised(),
            final(self).spec_config() == old(self).spec_config(),
    {
        self.set_standby_internal()
    }
}

/// Mock radio port: records every command written and replays
/// scripted responses to reads.
pub struct MockRadioPort {
    written: Vec<(u8, Vec<u8>)>,
    read_scripts: Vec<Vec<u8>>,
    dio1: bool,
}

impl MockRadioPort {
    /// Create a new mock port with nothing recorded or scripted.
    pub fn new() -> (r: MockRadioPort)
        ensures
            r.log() == Seq::<SpiCommand>::empty(),
            r.spec_dio1(),
    {
        let r = MockRadioPort { written: Vec::new(), read_scripts: Vec::new(), dio1: true };
        proof {
            assert(r.log() =~= Seq::<SpiCommand>::empty());
        }
        r
    }

    /// Whether the mock interrupt line reads high.
    pub closed spec fn spec_dio1(&self) -> bool {
        self.dio1
    }

    /// Script the response bytes of the next read.
    pub fn script_read(&mut self, bytes: Vec<u8>)
        ensures
            final(self).log() == old(self).log(),
            final(self).spec_dio1() == old(self).spec_dio1(),
    {
        self.read_scripts.push(bytes);
        proof {
            assert(self.log() =~= old(self).log());
        }
    }

    /// Drive the mock interrupt line.
    pub fn set_dio1(&mut self, high: bool)
        ensures
            final(self).log() == old(self).log(),
            final(self).spec_dio1() == high,
    {
        self.dio1 = high;
        proof {
            assert(self.log() =~= old(self).log());
        }
    }

    /// The commands recorded so far, as opcode and argument bytes.
    pub fn get_written(&self) -> (r: &Vec<(u8, Vec<u8>)>)
        ensures
            r@.map_values(|p: (u8, Vec<u8>)| SpiCommand { opcode: p.0, args: p.1@ }) == self.log(),
    {
        &self.written
    }

    /// Take the next scripted response, padded or cut to `len`.
    fn next_response(&mut self, len: usize) -> (r: Vec<u8>)
        ensures
            r@.len() == len,
            final(self).written@ == old(self).written@,
            final(self).dio1 == old(self).dio1,
    {
        let script: Vec<u8> = if self.read_scripts.len() > 0 {
            self.read_scripts.remove(0)
        } else {
            Vec::new()
        };
        let mut out: Vec<u8> = Vec::new();
        let mut k: usize = 0;
        while k < len
            invariant
                k <= len,
                out@.len() == k,
            decreases len - k,
        {
            if k < script.len() {
                out.push(script[k]);
            } else {
                out.push(0);
            }
            k = k + 1;
        }
        out
    }
}

impl RadioPort for MockRadioPort {
    closed spec fn log(&self) -> Seq<SpiCommand> {
        self.written@.map_values(|p: (u8, Vec<u8>)| SpiCommand { opcode: p.0, args: p.1@ })
    }

    fn reset(&mut self) -> (r: Result<(), LoraError>) {
        proof {
            assert(self.log() =~= old(self).log());
        }
        Ok(())
    }

    fn write_command(&mut self, opcode: u8, args: &[u8]) -> (r: Result<(), LoraError>) {
        let mut copy: Vec<u8> = Vec::new();
        let mut k: usize = 0;
        while k < args.len()
            invariant
                k <= args@.len(),
                copy@ == args@.take(k as int),
            decreases args@.len() - k,
        {
            copy.push(args[k]);
            k = k + 1;
            assert(copy@ =~= args@.take(k as int));
        }
        assert(copy@ =~= args@);
        self.written.push((opcode, copy));
        proof {
            assert(self.log() =~= old(self).log().push(SpiCommand { opcode, args: args@ }));
        }
        Ok(())
    }

    fn read_command(&mut self, opcode: u8, len: usize) -> (r: Result<Vec<u8>, LoraError>) {
        let out = self.next_response(len);
        proof {
            assert(self.log() =~= old(self).log());
        }
        Ok(out)
    }

    fn read_buffer(&mut self, offset: u8, len: usize) -> (r: Result<Vec<u8>, LoraError>) {
        let out = self.next_response(len);
        proof {
            assert(self.log() =~= old(self).log());
        }
        Ok(out)
    }

    fn dio1_is_high(&mut self) -> (r: bool) {
        self.dio1
    }

    fn delay_us(&mut self, us: u32) {
    }

    fn delay_ms(&mut self, ms: u32) {
    }
}

} // verus!
