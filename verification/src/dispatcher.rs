//! Command dispatch and response routing.
//!
//! The dispatcher executes commands against the radio and produces
//! the reply to publish. Responses travel on a publish/subscribe bus
//! as [`ResponseMessage`]s; every transport writer applies the source
//! filter [`delivers`], so that command replies reach only the
//! originating host while unsolicited packets reach every host.

use vstd::prelude::*;

use crate::config::{VERSION_MAJOR, VERSION_MINOR, VERSION_PATCH};
use crate::lora::{LoraError, LoraRadio};
use crate::types::{Command, CommandId, CommandModel, Response, ResponseModel, ResponseStatus};

verus! {

/// Identifies the transport a command arrived on, for routing its
/// reply.
#[derive(Debug, Clone, Copy, PartialEq, Eq, Structural)]
pub enum CommandSource {
    /// Command received over the serial port.
    Serial,
    /// Command received over BLE.
    Ble,
    /// Command received over WiFi.
    WiFi,
}

/// A command wrapped with its routing metadata.
#[derive(Debug, Clone, PartialEq)]
pub struct CommandEnvelope {
    /// The command itself.
    pub command: Command,
    /// The transport it arrived on.
    pub source: CommandSource,
    /// Wrapping identifier pairing the reply with the request.
    pub sequence_id: u16,
}

/// Spec-level model of a command envelope.
pub struct CommandEnvelopeModel {
    pub command: CommandModel,
    pub source: CommandSource,
    pub sequence_id: u16,
}

impl View for CommandEnvelope {
    type V = CommandEnvelopeModel;

    open spec fn view(&self) -> CommandEnvelopeModel {
        CommandEnvelopeModel {
            command: self.command@,
            source: self.source,
            sequence_id: self.sequence_id,
        }
    }
}

/// A message on the response bus.
#[derive(Debug, Clone, PartialEq)]
pub enum ResponseMessage {
    /// A reply correlated to an inbound command, filtered by source.
    Command { source: CommandSource, sequence_id: u16, response: Response },
    /// A reception event, broadcast to every subscriber.
    Unsolicited(Response),
}

/// Spec-level model of a response bus message.
pub enum ResponseMessageModel {
    Command { source: CommandSource, sequence_id: u16, response: ResponseModel },
    Unsolicited(ResponseModel),
}

impl View for ResponseMessage {
    type V = ResponseMessageModel;

    open spec fn view(&self) -> ResponseMessageModel {
        match self {
            ResponseMessage::Command { source, sequence_id, response } => {
                ResponseMessageModel::Command {
                    source: *source,
                    sequence_id: *sequence_id,
                    response: response@,
                }
            },
            ResponseMessage::Unsolicited(response) => {
                ResponseMessageModel::Unsolicited(response@)
            },
        }
    }
}

impl ResponseMessageModel {
    /// The response the message carries.
    pub open spec fn response(self) -> ResponseModel {
        match self {
            ResponseMessageModel::Command { response, .. } => response,
            ResponseMessageModel::Unsolicited(response) => response,
        }
    }

    /// A message the firmware publishes: its response is well-formed.
    pub open spec fn wf(self) -> bool {
        self.response().wf()
    }
}

/// The source filter every subscriber applies: unsolicited messages
/// always pass, command replies pass only to their own source.
pub open spec fn delivers(msg: ResponseMessageModel, subscriber: CommandSource) -> bool {
    match msg {
        ResponseMessageModel::Command { source, .. } => source == subscriber,
        ResponseMessageModel::Unsolicited(_) => true,
    }
}

/// Apply the source filter of a subscriber to a bus message.
pub fn should_deliver(msg: &ResponseMessage, subscriber: CommandSource) -> (r: bool)
    ensures
        r == delivers(msg@, subscriber),
{
    match msg {
        ResponseMessage::Command { source, .. } => *source == subscriber,
        ResponseMessage::Unsolicited(_) => true,
    }
}

/// A command reply is delivered to the subscribers of its own source
/// and to no others.
pub proof fn lemma_command_reply_isolated(
    msg: ResponseMessageModel,
    own: CommandSource,
    subscriber: CommandSource,
)
    requires
        msg matches ResponseMessageModel::Command { source, .. } && source == own,
    ensures
        delivers(msg, subscriber) <==> subscriber == own,
{
}

/// An unsolicited message is delivered to every subscriber.
pub proof fn lemma_unsolicited_broadcast(msg: ResponseMessageModel, subscriber: CommandSource)
    requires
        msg is Unsolicited,
    ensures
        delivers(msg, subscriber),
{
}

/// The firmware version reply.
pub open spec fn version_response() -> ResponseModel {
    ResponseModel::Version { major: VERSION_MAJOR, minor: VERSION_MINOR, patch: VERSION_PATCH }
}

/// The status an error of the radio maps to: a timeout keeps its
/// identity, everything else becomes a generic LoRa error.
pub open spec fn status_of_lora_error(error: LoraError) -> ResponseStatus {
    if error == LoraError::Timeout {
        ResponseStatus::Timeout
    } else {
        ResponseStatus::LoraError
    }
}

/// What dispatching a command against a radio in the given state
/// yields: the reply, and the radio's transmit history afterwards.
pub open spec fn spec_dispatch<R: LoraRadio>(radio: R, command: CommandModel) -> (
    ResponseModel,
    Seq<Seq<u8>>,
) {
    match command {
        CommandModel::GetVersion => (version_response(), radio.tx_history()),
        CommandModel::Reboot => (
            ResponseModel::Error {
                status: ResponseStatus::InvalidCommand,
                original_command_id: CommandId::Reboot.byte(),
            },
            radio.tx_history(),
        ),
        CommandModel::LoraTx { data } => if radio.transmit_ok(data) {
            (ResponseModel::TxComplete, radio.tx_history().push(data))
        } else {
            (
                ResponseModel::Error {
                    status: status_of_lora_error(radio.transmit_err(data)),
                    original_command_id: CommandId::LoraTx.byte(),
                },
                radio.tx_history(),
            )
        },
    }
}

/// Command dispatcher.
pub struct CommandDispatcher;

impl CommandDispatcher {
    /// Create a new command dispatcher.
    pub fn new() -> (r: CommandDispatcher) {
        CommandDispatcher
    }

    /// Dispatch a command and return the response.
    ///
    /// A version query is answered from the compile-time constants; a
    /// reboot is not handled here and is answered with an invalid
    /// command error; a LoRa transmit is executed against the radio.
    pub fn dispatch<R: LoraRadio>(&self, radio: &mut R, command: Command) -> (r: Response)
        ensures
            r@ == spec_dispatch(*old(radio), command@).0,
            final(radio).tx_history() == spec_dispatch(*old(radio), command@).1,
    {
        match command {
            Command::GetVersion => self.handle_get_version(),
            Command::Reboot => {
                // admin handling intercepts reboots before dispatch
                Response::error(ResponseStatus::InvalidCommand, CommandId::Reboot)
            },
            Command::LoraTx { data } => self.handle_lora_tx(radio, &data),
        }
    }

    /// Answer a version query from the compile-time constants.
    fn handle_get_version(&self) -> (r: Response)
        ensures
            r@ == version_response(),
    {
        Response::Version {
            major: VERSION_MAJOR,
            minor: VERSION_MINOR,
            patch: VERSION_PATCH,
        }
    }

    /// Transmit a payload and map the outcome to a reply.
    fn handle_lora_tx<R: LoraRadio>(&self, radio: &mut R, data: &Vec<u8>) -> (r: Response)
        ensures
            old(radio).transmit_ok(data@) ==> r@ == ResponseModel::TxComplete
                && final(radio).tx_history() == old(radio).tx_history().push(data@),
            !old(radio).transmit_ok(data@) ==> r@ == (ResponseModel::Error {
                status: status_of_lora_error(old(radio).transmit_err(data@)),
                original_command_id: CommandId::LoraTx.byte(),
            }) && final(radio).tx_history() == old(radio).tx_history(),
    {
        match radio.transmit(data.as_slice()) {
            Ok(()) => Response::TxComplete,
            Err(e) => self.lora_error_to_response(e),
        }
    }

    /// Convert a radio error to an error reply for the transmit
    /// command.
    fn lora_error_to_response(&self, error: LoraError) -> (r: Response)
        ensures
            r@ == (ResponseModel::Error {
                status: status_of_lora_error(error),
                original_command_id: CommandId::LoraTx.byte(),
            }),
    {
        let status = if let LoraError::Timeout = error {
            ResponseStatus::Timeout
        } else {
            ResponseStatus::LoraError
        };
        Response::error(status, CommandId::LoraTx)
    }
}

impl Default for CommandDispatcher {
    fn default() -> (r: CommandDispatcher) {
        CommandDispatcher::new()
    }
}

/// A version query is answered with the firmware's compile-time
/// version triple, whatever the radio state.
pub proof fn lemma_dispatch_get_version<R: LoraRadio>(radio: R)
    ensures
        spec_dispatch(radio, CommandModel::GetVersion).0 == (ResponseModel::Version {
            major: VERSION_MAJOR,
            minor: VERSION_MINOR,
            patch: VERSION_PATCH,
        }),
        spec_dispatch(radio, CommandModel::GetVersion).1 == radio.tx_history(),
{
}

/// A transmit command is acknowledged exactly when the radio accepts
/// the payload, and then the payload is the last entry of the
/// transmit history; otherwise the history is unchanged.
pub proof fn lemma_dispatch_lora_tx<R: LoraRadio>(radio: R, data: Seq<u8>)
    ensures
        spec_dispatch(radio, CommandModel::LoraTx { data }).0 == ResponseModel::TxComplete
            <==> radio.transmit_ok(data),
        radio.transmit_ok(data) ==> spec_dispatch(radio, CommandModel::LoraTx { data }).1.last()
            == data,
        !radio.transmit_ok(data) ==> spec_dispatch(radio, CommandModel::LoraTx { data }).1
            == radio.tx_history(),
{
}

/// A failing transmit is answered with an error reply carrying the
/// transmit command identifier: a radio timeout maps to the timeout
/// status, any other radio error to the LoRa error status.
pub proof fn lemma_dispatch_error_mapping<R: LoraRadio>(radio: R, data: Seq<u8>)
    requires
        !radio.transmit_ok(data),
    ensures
        spec_dispatch(radio, CommandModel::LoraTx { data }).0 == (ResponseModel::Error {
            status: if radio.transmit_err(data) == LoraError::Timeout {
                ResponseStatus::Timeout
            } else {
                ResponseStatus::LoraError
            },
            original_command_id: 0x10,
        }),
{
}

} // verus!
