//! The LoRa radio interface and its mock implementation.
//!
//! The [`LoraRadio`] trait is the capability set the dispatcher and
//! the radio task work against: initialise, transmit, receive,
//! configure, standby. Its contracts speak of a transmit history and
//! a deterministic next-receive outcome, which the mock radio models
//! exactly; the hardware driver implements the same interface.

use vstd::prelude::*;

use crate::config::{BANDWIDTH_KHZ, CODING_RATE, FREQUENCY_HZ, MAX_LORA_PAYLOAD, SPREADING_FACTOR,
    TX_POWER_DBM};

verus! {

/// Errors reported by LoRa radio operations.
#[derive(Debug, Clone, Copy, PartialEq, Eq, Structural)]
pub enum LoraError {
    /// The operation timed out.
    Timeout,
    /// CRC error in a received packet.
    CrcError,
    /// The transmission failed.
    TransmitFailed,
    /// The reception failed.
    ReceiveFailed,
    /// Invalid configuration or payload.
    InvalidConfig,
    /// The radio stayed busy past the bounded wait.
    BusyTimeout,
    /// SPI communication error.
    SpiError,
    /// The radio was not initialised.
    NotInitialised,
}

/// Modulation configuration of the radio.
#[derive(Debug, Clone, PartialEq)]
pub struct LoraConfig {
    /// Centre frequency in Hz.
    pub frequency_hz: u32,
    /// Spreading factor, 7 to 12.
    pub spreading_factor: u8,
    /// Bandwidth in kHz.
    pub bandwidth_khz: u32,
    /// Coding rate denominator, 5 to 8 for 4/5 to 4/8.
    pub coding_rate: u8,
    /// Transmit power in dBm, -9 to +22.
    pub tx_power_dbm: i8,
}

impl LoraConfig {
    /// The compile-time default configuration.
    pub open spec fn spec_default() -> LoraConfig {
        LoraConfig {
            frequency_hz: FREQUENCY_HZ,
            spreading_factor: SPREADING_FACTOR,
            bandwidth_khz: BANDWIDTH_KHZ,
            coding_rate: CODING_RATE,
            tx_power_dbm: TX_POWER_DBM,
        }
    }
}

impl Default for LoraConfig {
    /// The compile-time radio defaults.
    fn default() -> (r: LoraConfig)
        ensures
            r == LoraConfig::spec_default(),
    {
        LoraConfig {
            frequency_hz: FREQUENCY_HZ,
            spreading_factor: SPREADING_FACTOR,
            bandwidth_khz: BANDWIDTH_KHZ,
            coding_rate: CODING_RATE,
            tx_power_dbm: TX_POWER_DBM,
        }
    }
}

/// A received packet with its signal metadata.
#[derive(Debug, Clone, PartialEq)]
pub struct RxPacket {
    /// Received payload bytes.
    pub data: Vec<u8>,
    /// Received signal strength in dBm.
    pub rssi: i16,
    /// Signal-to-noise ratio in dB.
    pub snr: i8,
}

/// Spec-level model of a received packet.
pub struct RxPacketModel {
    pub data: Seq<u8>,
    pub rssi: i16,
    pub snr: i8,
}

impl View for RxPacket {
    type V = RxPacketModel;

    open spec fn view(&self) -> RxPacketModel {
        RxPacketModel { data: self.data@, rssi: self.rssi, snr: self.snr }
    }
}

impl RxPacketModel {
    /// A packet the radio can deliver: at most 256 payload bytes.
    pub open spec fn wf(self) -> bool {
        self.data.len() <= MAX_LORA_PAYLOAD
    }
}

/// Abstract LoRa radio interface.
///
/// The spec functions model the radio as a state machine: a history
/// of successfully transmitted payloads, a predicate saying whether a
/// transmit from the current state succeeds, and the outcome of the
/// next receive.
pub trait LoraRadio: Sized {
    /// Payloads successfully transmitted so far, oldest first.
    spec fn tx_history(&self) -> Seq<Seq<u8>>;

    /// Whether transmitting `data` from this state succeeds.
    spec fn transmit_ok(&self, data: Seq<u8>) -> bool;

    /// The error a failing transmit of `data` reports.
    spec fn transmit_err(&self, data: Seq<u8>) -> LoraError;

    /// The outcome of the next receive from this state.
    spec fn receive_outcome(&self) -> Result<RxPacketModel, LoraError>;

    /// How a receive may change the receiver's state: what the
    /// implementation consumes when it hands a packet out.
    spec fn receive_transition(&self, post: Self) -> bool;

    /// Whether the radio has been initialised.
    spec fn initialised(&self) -> bool;

    /// The configuration last applied, if any.
    spec fn configuration(&self) -> Option<LoraConfig>;

    /// Initialise the radio hardware, leaving it listening.
    fn init(&mut self) -> (r: Result<(), LoraError>)
        ensures
            final(self).tx_history() == old(self).tx_history(),
            r is Ok ==> final(self).initialised(),
    ;

    /// Transmit `data` over LoRa, returning once it is on the air.
    ///
    /// On success the payload is appended to the transmit history;
    /// on failure the history is unchanged and the reported error is
    /// the one the state determines.
    fn transmit(&mut self, data: &[u8]) -> (r: Result<(), LoraError>)
        ensures
            old(self).transmit_ok(data@) ==> r == Ok::<(), LoraError>(())
                && final(self).tx_history() == old(self).tx_history().push(data@),
            !old(self).transmit_ok(data@) ==> r == Err::<(), LoraError>(
                old(self).transmit_err(data@),
            ) && final(self).tx_history() == old(self).tx_history(),
            final(self).initialised() == old(self).initialised(),
            final(self).configuration() == old(self).configuration(),
    ;

    /// Listen until a packet arrives or the timeout expires.
    ///
    /// The outcome is the one the starting state determines, and the
    /// state moves on as `receive_transition` says: a delivered
    /// packet is consumed, not replayed.
    fn receive(&mut self, timeout_ms: u32) -> (r: Result<RxPacket, LoraError>)
        ensures
            final(self).tx_history() == old(self).tx_history(),
            match old(self).receive_outcome() {
                Ok(p) => r matches Ok(packet) && packet@ == p && p.wf(),
                Err(e) => r == Err::<RxPacket, LoraError>(e),
            },
            old(self).receive_transition(*final(self)),
            final(self).initialised() == old(self).initialised(),
            final(self).configuration() == old(self).configuration(),
    ;

    /// Apply a modulation configuration.
    fn configure(&mut self, config: &LoraConfig) -> (r: Result<(), LoraError>)
        ensures
            final(self).tx_history() == old(self).tx_history(),
            r is Ok ==> final(self).configuration() == Some(*config),
            final(self).initialised() == old(self).initialised(),
    ;

    /// Put the radio into standby.
    fn set_standby(&mut self) -> (r: Result<(), LoraError>)
        ensures
            final(self).tx_history() == old(self).tx_history(),
            final(self).initialised() == old(self).initialised(),
            final(self).configuration() == old(self).configuration(),
    ;
}

/// Mock radio: replays a queued packet list and records transmits.
pub struct MockLoraRadio {
    rx_queue: Vec<RxPacket>,
    sent: Vec<Vec<u8>>,
    config: Option<LoraConfig>,
    next_tx_error: Option<LoraError>,
    next_rx_error: Option<LoraError>,
    initialised: bool,
}

impl MockLoraRadio {
    /// The packets queued for delivery, oldest first.
    pub closed spec fn queued(&self) -> Seq<RxPacketModel> {
        self.rx_queue@.map_values(|p: RxPacket| p@)
    }

    /// The error forced onto the next transmit, if any.
    pub closed spec fn forced_tx_error(&self) -> Option<LoraError> {
        self.next_tx_error
    }

    /// The error forced onto the next receive, if any.
    pub closed spec fn forced_rx_error(&self) -> Option<LoraError> {
        self.next_rx_error
    }

    /// Create a new mock radio with nothing queued or recorded.
    pub fn new() -> (r: MockLoraRadio)
        ensures
            r.tx_history() == Seq::<Seq<u8>>::empty(),
            r.queued() == Seq::<RxPacketModel>::empty(),
            r.forced_tx_error() is None,
            r.forced_rx_error() is None,
            !r.initialised(),
            r.configuration() is None,
    {
        let r = MockLoraRadio {
            rx_queue: Vec::new(),
            sent: Vec::new(),
            config: None,
            next_tx_error: None,
            next_rx_error: None,
            initialised: false,
        };
        proof {
            assert(r.tx_history() =~= Seq::<Seq<u8>>::empty());
            assert(r.queued() =~= Seq::<RxPacketModel>::empty());
        }
        r
    }

    /// Queue a packet for the next receive.
    pub fn queue_rx_packet(&mut self, packet: RxPacket)
        ensures
            final(self).queued() == old(self).queued().push(packet@),
            final(self).tx_history() == old(self).tx_history(),
            final(self).forced_tx_error() == old(self).forced_tx_error(),
            final(self).forced_rx_error() == old(self).forced_rx_error(),
    {
        self.rx_queue.push(packet);
        proof {
            assert(self.queued() =~= old(self).queued().push(packet@));
        }
    }

    /// Force an error onto the next transmit.
    pub fn set_next_tx_error(&mut self, error: LoraError)
        ensures
            final(self).forced_tx_error() == Some(error),
            final(self).tx_history() == old(self).tx_history(),
            final(self).queued() == old(self).queued(),
            final(self).forced_rx_error() == old(self).forced_rx_error(),
    {
        self.next_tx_error = Some(error);
    }

    /// Force an error onto the next receive.
    pub fn set_next_rx_error(&mut self, error: LoraError)
        ensures
            final(self).forced_rx_error() == Some(error),
            final(self).tx_history() == old(self).tx_history(),
            final(self).queued() == old(self).queued(),
            final(self).forced_tx_error() == old(self).forced_tx_error(),
    {
        self.next_rx_error = Some(error);
    }

    /// All transmitted payloads, oldest first.
    pub fn get_tx_history(&self) -> (r: &Vec<Vec<u8>>)
        ensures
            r@.map_values(|v: Vec<u8>| v@) == self.tx_history(),
    {
        &self.sent
    }

    /// Whether the radio has been initialised.
    pub fn is_initialised(&self) -> (r: bool)
        ensures
            r == self.initialised(),
    {
        self.initialised
    }

    /// The configuration last applied, if any.
    pub fn get_config(&self) -> (r: &Option<LoraConfig>)
        ensures
            r == self.configuration(),
    {
        &self.config
    }
}

impl Default for MockLoraRadio {
    fn default() -> (r: MockLoraRadio)
        ensures
            r.tx_history() == Seq::<Seq<u8>>::empty(),
            r.queued() == Seq::<RxPacketModel>::empty(),
            r.forced_tx_error() is None,
            r.forced_rx_error() is None,
            !r.initialised(),
    {
        MockLoraRadio::new()
    }
}

impl LoraRadio for MockLoraRadio {
    closed spec fn tx_history(&self) -> Seq<Seq<u8>> {
        self.sent@.map_values(|v: Vec<u8>| v@)
    }

    open spec fn transmit_ok(&self, data: Seq<u8>) -> bool {
        self.forced_tx_error() is None && 1 <= data.len() <= MAX_LORA_PAYLOAD
    }

    open spec fn transmit_err(&self, data: Seq<u8>) -> LoraError {
        match self.forced_tx_error() {
            Some(e) => e,
            None => LoraError::InvalidConfig,
        }
    }

    closed spec fn initialised(&self) -> bool {
        self.initialised
    }

    closed spec fn configuration(&self) -> Option<LoraConfig> {
        self.config
    }

    open spec fn receive_transition(&self, post: Self) -> bool {
        match self.forced_rx_error() {
            Some(_) => post.forced_rx_error() is None && post.queued() == self.queued(),
            None => post.forced_rx_error() is None && if self.queued().len() == 0 {
                post.queued() == self.queued()
            } else {
                post.queued() == self.queued().skip(1)
            },
        }
    }

    open spec fn receive_outcome(&self) -> Result<RxPacketModel, LoraError> {
        match self.forced_rx_error() {
            Some(e) => Err(e),
            None => if self.queued().len() == 0 {
                Err(LoraError::Timeout)
            } else if self.queued()[0].wf() {
                Ok(self.queued()[0])
            } else {
                Err(LoraError::ReceiveFailed)
            },
        }
    }

    fn init(&mut self) -> (r: Result<(), LoraError>) {
        self.initialised = true;
        Ok(())
    }

    fn transmit(&mut self, data: &[u8]) -> (r: Result<(), LoraError>) {
        match self.next_tx_error.take() {
            Some(error) => Err(error),
            None => {
                if data.len() == 0 || data.len() > MAX_LORA_PAYLOAD {
                    return Err(LoraError::InvalidConfig);
                }
                let mut packet: Vec<u8> = Vec::new();
                let mut k: usize = 0;
                while k < data.len()
                    invariant
                        k <= data@.len(),
                        packet@ == data@.take(k as int),
                    decreases data@.len() - k,
                {
                    packet.push(data[k]);
                    k = k + 1;
                    assert(packet@ =~= data@.take(k as int));
                }
                assert(packet@ =~= data@);
                self.sent.push(packet);
                proof {
                    assert(self.tx_history() =~= old(self).tx_history().push(data@));
                }
                Ok(())
            },
        }
    }

    fn receive(&mut self, timeout_ms: u32) -> (r: Result<RxPacket, LoraError>) {
        match self.next_rx_error.take() {
            Some(error) => Err(error),
            None => {
                if self.rx_queue.len() == 0 {
                    return Err(LoraError::Timeout);
                }
                let packet = self.rx_queue.remove(0);
                proof {
                    assert(packet@ == old(self).queued()[0]);
                    assert(self.queued() =~= old(self).queued().skip(1));
                }
                if packet.data.len() <= MAX_LORA_PAYLOAD {
                    Ok(packet)
                } else {
                    Err(LoraError::ReceiveFailed)
                }
            },
        }
    }

    fn configure(&mut self, config: &LoraConfig) -> (r: Result<(), LoraError>) {
        self.config = Some(
            LoraConfig {
                frequency_hz: config.frequency_hz,
                spreading_factor: config.spreading_factor,
                bandwidth_khz: config.bandwidth_khz,
                coding_rate: config.coding_rate,
                tx_power_dbm: config.tx_power_dbm,
            },
        );
        Ok(())
    }

    fn set_standby(&mut self) -> (r: Result<(), LoraError>) {
        Ok(())
    }
}

} // verus!
