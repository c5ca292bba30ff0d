//! The decision steps of the cooperative tasks.
//!
//! The firmware shell runs the loops: it awaits bytes, channels and
//! timers, and hands each event to one of these functions, which
//! decide everything. The radio task alternates one receive poll
//! with a drain of the command queue; each transport writer filters
//! the response bus by its own source and encodes what passes.

use vstd::prelude::*;

use crate::cobs::cobs_encoding;
use crate::config::RX_POLL_INTERVAL_MS;
use crate::dispatcher::{delivers, spec_dispatch, CommandDispatcher, CommandEnvelope,
    CommandSource, ResponseMessage, ResponseMessageModel};
use crate::frame::{frame_bytes, CommandParser, ResponseSerialiser};
use crate::lora::LoraRadio;
use crate::serial::{frame_outcome, process_frame};
use crate::types::{Response, ResponseModel, ResponseStatus};

verus! {

/// One poll of the background receive: listen for one interval and
/// hand back the unsolicited message to publish, if a packet came.
pub fn radio_poll_step<R: LoraRadio>(radio: &mut R) -> (r: Option<ResponseMessage>)
    ensures
        final(radio).tx_history() == old(radio).tx_history(),
        match old(radio).receive_outcome() {
            Ok(p) => r matches Some(m) && m@ == ResponseMessageModel::Unsolicited(
                ResponseModel::RxPacket { data: p.data, rssi: p.rssi, snr: p.snr },
            ) && m@.wf(),
            Err(e) => r is None,
        },
{
    match radio.receive(RX_POLL_INTERVAL_MS) {
        Ok(packet) => Some(
            ResponseMessage::Unsolicited(
                Response::RxPacket { data: packet.data, rssi: packet.rssi, snr: packet.snr },
            ),
        ),
        Err(_) => None,
    }
}

/// Dispatch one envelope from the command queue and wrap the reply
/// for the response bus, tagged with the envelope's source and
/// sequence identifier so the filter routes it home.
pub fn radio_command_step<R: LoraRadio>(
    dispatcher: &CommandDispatcher,
    radio: &mut R,
    envelope: CommandEnvelope,
) -> (r: ResponseMessage)
    ensures
        r@ == (ResponseMessageModel::Command {
            source: envelope.source,
            sequence_id: envelope.sequence_id,
            response: spec_dispatch(*old(radio), envelope.command@).0,
        }),
        final(radio).tx_history() == spec_dispatch(*old(radio), envelope.command@).1,
{
    let CommandEnvelope { command, source, sequence_id } = envelope;
    let response = dispatcher.dispatch(radio, command);
    ResponseMessage::Command { source, sequence_id, response }
}

/// Handle one completed frame of a transport reader: a parsed
/// command becomes an envelope for the command queue; a rejected one
/// becomes the error reply to publish under the reader's own source,
/// so only the sender sees it.
pub fn reader_frame_step(
    parser: &CommandParser,
    frame: &Vec<u8>,
    source: CommandSource,
    sequence_id: u16,
) -> (r: Result<CommandEnvelope, ResponseMessage>)
    ensures
        match frame_outcome(frame@) {
            Ok(c) => r matches Ok(env) && env@.command == c && env@.source == source
                && env@.sequence_id == sequence_id,
            Err(rejection) => r matches Err(m) && m@ == (ResponseMessageModel::Command {
                source,
                sequence_id,
                response: ResponseModel::Error {
                    status: rejection.0,
                    original_command_id: rejection.1,
                },
            }),
        },
{
    match process_frame(parser, frame) {
        Ok(command) => Ok(CommandEnvelope { command, source, sequence_id }),
        Err((status, id)) => Err(
            ResponseMessage::Command {
                source,
                sequence_id,
                response: Response::error_raw(status, id),
            },
        ),
    }
}

/// One step of a transport writer: apply the source filter to a bus
/// message and encode the response it carries when it passes.
pub fn writer_step(
    serialiser: &ResponseSerialiser,
    msg: &ResponseMessage,
    my_source: CommandSource,
) -> (r: Option<Vec<u8>>)
    requires
        msg@.wf(),
    ensures
        delivers(msg@, my_source) ==> (r matches Some(bytes) && bytes@ == cobs_encoding(
            frame_bytes(msg@.response().id().byte(), msg@.response().payload()),
        )),
        !delivers(msg@, my_source) ==> r is None,
{
    let accepted = match msg {
        ResponseMessage::Command { source, response, .. } => {
            if *source == my_source {
                Some(response)
            } else {
                None
            }
        },
        ResponseMessage::Unsolicited(response) => Some(response),
    };
    match accepted {
        Some(response) => Some(serialiser.serialise(response)),
        None => None,
    }
}

} // verus!
