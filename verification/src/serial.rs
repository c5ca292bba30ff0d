//! Serial port abstraction and the serial command reader.
//!
//! The [`SerialPort`] trait models a byte-stream interface: pending
//! input bytes and written output bytes. The mock implementation
//! backs unit tests; the USB CDC endpoint implements the same
//! interface in the firmware shell. [`SerialCommandReader`] drives a
//! frame accumulator over the port and turns completed frames into
//! commands or parse errors.

use vstd::prelude::*;

use crate::cobs::{cobs_decode, cobs_decoding};
use crate::frame::{spec_parse, CommandParser};
use crate::framing::{acc_feed, acc_step, FrameAccumulator};
use crate::types::{Command, CommandModel, ResponseStatus};

verus! {

/// Errors reported by serial port operations.
#[derive(Debug, Clone, Copy, PartialEq, Eq, Structural)]
pub enum SerialError {
    /// Framing error in received data.
    FramingError,
    /// Buffer overflow.
    OverflowError,
    /// The operation timed out.
    Timeout,
    /// Write error.
    WriteError,
}

/// Abstract serial port interface.
///
/// The spec functions model the port as a queue of pending input
/// bytes and a log of written output bytes.
pub trait SerialPort: Sized {
    /// Bytes waiting to be read, oldest first.
    spec fn rx_pending(&self) -> Seq<u8>;

    /// Bytes written so far, oldest first.
    spec fn tx_written(&self) -> Seq<u8>;

    /// Read bytes into the buffer, from the front of the pending
    /// input; returns how many were read, possibly zero.
    fn read(&mut self, buf: &mut [u8]) -> (r: Result<usize, SerialError>)
        ensures
            final(self).tx_written() == old(self).tx_written(),
            final(buf)@.len() == old(buf)@.len(),
            match r {
                Ok(n) => n <= old(buf)@.len() && n <= old(self).rx_pending().len()
                    && final(buf)@.take(n as int) == old(self).rx_pending().take(n as int)
                    && final(self).rx_pending() == old(self).rx_pending().skip(n as int),
                Err(e) => final(self).rx_pending() == old(self).rx_pending(),
            },
    ;

    /// Append bytes to the output.
    fn write(&mut self, data: &[u8]) -> (r: Result<(), SerialError>)
        ensures
            final(self).rx_pending() == old(self).rx_pending(),
            match r {
                Ok(()) => final(self).tx_written() == old(self).tx_written() + data@,
                Err(e) => final(self).tx_written() == old(self).tx_written(),
            },
    ;

    /// Flush the output.
    fn flush(&mut self) -> (r: Result<(), SerialError>)
        ensures
            final(self).rx_pending() == old(self).rx_pending(),
            final(self).tx_written() == old(self).tx_written(),
    ;
}

/// Mock serial port: reads from a queued byte buffer, records writes.
pub struct MockSerialPort {
    rx_buffer: Vec<u8>,
    tx_buffer: Vec<u8>,
    next_read_error: Option<SerialError>,
    next_write_error: Option<SerialError>,
}

impl MockSerialPort {
    /// The error forced onto the next read, if any.
    pub closed spec fn forced_read_error(&self) -> Option<SerialError> {
        self.next_read_error
    }

    /// The error forced onto the next write, if any.
    pub closed spec fn forced_write_error(&self) -> Option<SerialError> {
        self.next_write_error
    }

    /// Create a new mock serial port with nothing queued.
    pub fn new() -> (r: MockSerialPort)
        ensures
            r.rx_pending() == Seq::<u8>::empty(),
            r.tx_written() == Seq::<u8>::empty(),
            r.forced_read_error() is None,
            r.forced_write_error() is None,
    {
        MockSerialPort {
            rx_buffer: Vec::new(),
            tx_buffer: Vec::new(),
            next_read_error: None,
            next_write_error: None,
        }
    }

    /// Queue bytes to be returned by later reads.
    pub fn queue_rx_data(&mut self, data: &[u8])
        ensures
            final(self).rx_pending() == old(self).rx_pending() + data@,
            final(self).tx_written() == old(self).tx_written(),
            final(self).forced_read_error() == old(self).forced_read_error(),
            final(self).forced_write_error() == old(self).forced_write_error(),
    {
        let mut k: usize = 0;
        while k < data.len()
            invariant
                k <= data@.len(),
                self.rx_buffer@ == old(self).rx_buffer@ + data@.take(k as int),
                self.tx_buffer == old(self).tx_buffer,
                self.next_read_error == old(self).next_read_error,
                self.next_write_error == old(self).next_write_error,
            decreases data@.len() - k,
        {
            self.rx_buffer.push(data[k]);
            k = k + 1;
            assert(self.rx_buffer@ =~= old(self).rx_buffer@ + data@.take(k as int));
        }
        proof {
            assert(self.rx_buffer@ =~= old(self).rx_buffer@ + data@);
        }
    }

    /// All bytes written so far.
    pub fn get_tx_data(&self) -> (r: &Vec<u8>)
        ensures
            r@ == self.tx_written(),
    {
        &self.tx_buffer
    }

    /// Discard the recorded output.
    pub fn clear_tx_buffer(&mut self)
        ensures
            final(self).tx_written() == Seq::<u8>::empty(),
            final(self).rx_pending() == old(self).rx_pending(),
            final(self).forced_read_error() == old(self).forced_read_error(),
            final(self).forced_write_error() == old(self).forced_write_error(),
    {
        self.tx_buffer.clear();
    }

    /// Force an error onto the next read.
    pub fn set_next_read_error(&mut self, error: SerialError)
        ensures
            final(self).forced_read_error() == Some(error),
            final(self).rx_pending() == old(self).rx_pending(),
            final(self).tx_written() == old(self).tx_written(),
            final(self).forced_write_error() == old(self).forced_write_error(),
    {
        self.next_read_error = Some(error);
    }

    /// Force an error onto the next write.
    pub fn set_next_write_error(&mut self, error: SerialError)
        ensures
            final(self).forced_write_error() == Some(error),
            final(self).rx_pending() == old(self).rx_pending(),
            final(self).tx_written() == old(self).tx_written(),
            final(self).forced_read_error() == old(self).forced_read_error(),
    {
        self.next_write_error = Some(error);
    }
}

impl SerialPort for MockSerialPort {
    closed spec fn rx_pending(&self) -> Seq<u8> {
        self.rx_buffer@
    }

    closed spec fn tx_written(&self) -> Seq<u8> {
        self.tx_buffer@
    }

    fn read(&mut self, buf: &mut [u8]) -> (r: Result<usize, SerialError>) {
        match self.next_read_error.take() {
            Some(error) => Err(error),
            None => {
                if self.rx_buffer.len() == 0 {
                    proof {
                        assert(final(buf)@.take(0) =~= old(self).rx_pending().take(0));
                        assert(self.rx_buffer@ =~= old(self).rx_pending().skip(0));
                    }
                    return Ok(0);
                }
                let count: usize = if buf.len() < self.rx_buffer.len() {
                    buf.len()
                } else {
                    self.rx_buffer.len()
                };
                let mut k: usize = 0;
                while k < count
                    invariant
                        k <= count,
                        count <= buf@.len(),
                        count <= self.rx_buffer@.len(),
                        self.rx_buffer@ == old(self).rx_buffer@,
                        self.tx_buffer@ == old(self).tx_buffer@,
                        buf@.len() == old(buf)@.len(),
                        buf@.take(k as int) == self.rx_buffer@.take(k as int),
                        buf@.skip(count as int) == old(buf)@.skip(count as int),
                    decreases count - k,
                {
                    buf[k] = self.rx_buffer[k];
                    k = k + 1;
                    proof {
                        assert(buf@.take(k as int) =~= self.rx_buffer@.take(k as int));
                        assert(buf@.skip(count as int) =~= old(buf)@.skip(count as int));
                    }
                }
                // drop the consumed bytes from the front
                let mut remaining: Vec<u8> = Vec::new();
                let mut j: usize = count;
                while j < self.rx_buffer.len()
                    invariant
                        count <= j <= self.rx_buffer@.len(),
                        self.rx_buffer@ == old(self).rx_buffer@,
                        self.tx_buffer@ == old(self).tx_buffer@,
                        remaining@ == self.rx_buffer@.subrange(count as int, j as int),
                    decreases self.rx_buffer@.len() - j,
                {
                    remaining.push(self.rx_buffer[j]);
                    j = j + 1;
                    assert(remaining@ =~= self.rx_buffer@.subrange(count as int, j as int));
                }
                proof {
                    assert(remaining@ =~= self.rx_buffer@.skip(count as int));
                }
                self.rx_buffer = remaining;
                Ok(count)
            },
        }
    }

    fn write(&mut self, data: &[u8]) -> (r: Result<(), SerialError>) {
        match self.next_write_error.take() {
            Some(error) => Err(error),
            None => {
                let mut k: usize = 0;
                while k < data.len()
                    invariant
                        k <= data@.len(),
                        self.rx_buffer == old(self).rx_buffer,
                        self.tx_buffer@ == old(self).tx_buffer@ + data@.take(k as int),
                        self.next_read_error == old(self).next_read_error,
                    decreases data@.len() - k,
                {
                    self.tx_buffer.push(data[k]);
                    k = k + 1;
                    assert(self.tx_buffer@ =~= old(self).tx_buffer@ + data@.take(k as int));
                }
                proof {
                    assert(self.tx_buffer@ =~= old(self).tx_buffer@ + data@);
                }
                Ok(())
            },
        }
    }

    fn flush(&mut self) -> (r: Result<(), SerialError>) {
        Ok(())
    }
}

/// Result of attempting to read a command from a serial port.
#[derive(Debug)]
pub enum ReadResult {
    /// A command was parsed.
    Command(Command),
    /// A frame arrived but was rejected: the status to report and
    /// the offending command identifier byte.
    ParseError(ResponseStatus, u8),
    /// The port failed.
    SerialError(SerialError),
}

/// What a completed frame yields once COBS-decoded and parsed: the
/// command, or the status to report together with the command
/// identifier byte it concerned. A frame whose COBS decoding fails
/// reports a CRC error against identifier zero; one too short to
/// carry its identifier byte reports against identifier zero too.
pub open spec fn frame_outcome(frame: Seq<u8>) -> Result<CommandModel, (ResponseStatus, u8)> {
    match cobs_decoding(frame + seq![0u8]) {
        None => Err((ResponseStatus::CrcError, 0u8)),
        Some(decoded) => if decoded.len() == 0 {
            Err((ResponseStatus::InvalidLength, 0u8))
        } else {
            match spec_parse(decoded) {
                Ok(c) => Ok(c),
                Err(status) => Err(
                    (status, if decoded.len() >= 2 { decoded[1] } else { 0u8 }),
                ),
            }
        },
    }
}

/// COBS-decode a completed frame and parse the command it carries.
///
/// The accumulator strips the zero delimiter, so it is restored here
/// before decoding.
pub fn process_frame(parser: &CommandParser, frame: &Vec<u8>) -> (r: Result<
    Command,
    (ResponseStatus, u8),
>)
    ensures
        match r {
            Ok(c) => frame_outcome(frame@) == Ok::<CommandModel, (ResponseStatus, u8)>(c@),
            Err(e) => frame_outcome(frame@) == Err::<CommandModel, (ResponseStatus, u8)>(e),
        },
{
    let mut encoded: Vec<u8> = Vec::new();
    let mut k: usize = 0;
    while k < frame.len()
        invariant
            k <= frame@.len(),
            encoded@ == frame@.take(k as int),
        decreases frame@.len() - k,
    {
        encoded.push(frame[k]);
        k = k + 1;
        assert(encoded@ =~= frame@.take(k as int));
    }
    encoded.push(0);
    proof {
        assert(encoded@ =~= frame@ + seq![0u8]);
    }
    match cobs_decode(encoded.as_slice()) {
        Err(()) => Err((ResponseStatus::CrcError, 0)),
        Ok(decoded) => {
            if decoded.len() == 0 {
                return Err((ResponseStatus::InvalidLength, 0));
            }
            let command_id: u8 = if decoded.len() >= 2 {
                decoded[1]
            } else {
                0
            };
            let parser_result = parser.parse(decoded.as_slice());
            match parser_result {
                Ok(c) => Ok(c),
                Err(status) => Err((status, command_id)),
            }
        },
    }
}

/// Serial command reader: a frame accumulator, a parser, and the
/// wrapping sequence counter pairing replies with requests.
pub struct SerialCommandReader {
    accumulator: FrameAccumulator,
    parser: CommandParser,
    sequence_counter: u16,
}

impl SerialCommandReader {
    /// The partial frame accumulated so far.
    pub closed spec fn acc_state(&self) -> Seq<u8> {
        self.accumulator@
    }

    /// The next sequence identifier to hand out.
    pub closed spec fn seq_counter(&self) -> u16 {
        self.sequence_counter
    }

    /// The accumulator never outgrows its bound.
    pub closed spec fn wf(&self) -> bool {
        self.accumulator.wf()
    }

    /// Create a new serial command reader.
    pub fn new() -> (r: SerialCommandReader)
        ensures
            r.acc_state() == Seq::<u8>::empty(),
            r.seq_counter() == 0,
            r.wf(),
    {
        SerialCommandReader {
            accumulator: FrameAccumulator::new(),
            parser: CommandParser::new(),
            sequence_counter: 0,
        }
    }

    /// Hand out the next sequence identifier, wrapping on overflow.
    pub fn next_sequence_id(&mut self) -> (r: u16)
        ensures
            r == old(self).seq_counter(),
            final(self).seq_counter() == (old(self).seq_counter() + 1) % 0x10000,
            final(self).acc_state() == old(self).acc_state(),
            final(self).wf() == old(self).wf(),
    {
        let id = self.sequence_counter;
        if self.sequence_counter == 0xFFFF {
            self.sequence_counter = 0;
        } else {
            self.sequence_counter = self.sequence_counter + 1;
        }
        id
    }

    /// Read bytes from the port until a frame completes, and decode
    /// and parse it.
    ///
    /// The consumed bytes, fed to the accumulator, complete exactly
    /// one frame, whose outcome is returned; a port error is passed
    /// through as it is, and a port that runs dry before a frame
    /// completes reports a timeout. On a port error the bytes
    /// consumed so far completed no frame and sit in the
    /// accumulator, ready for the next call.
    pub fn read_command<S: SerialPort>(&mut self, serial: &mut S) -> (r: ReadResult)
        requires
            old(self).wf(),
        ensures
            final(self).wf(),
            final(serial).tx_written() == old(serial).tx_written(),
            final(self).seq_counter() == old(self).seq_counter(),
            match r {
                ReadResult::Command(c) => ({
                    let consumed = old(serial).rx_pending().take(
                        old(serial).rx_pending().len() - final(serial).rx_pending().len(),
                    );
                    acc_feed(old(self).acc_state(), consumed).0 == final(self).acc_state()
                        && acc_feed(old(self).acc_state(), consumed).1.len() == 1 && frame_outcome(
                        acc_feed(old(self).acc_state(), consumed).1[0],
                    ) == Ok::<CommandModel, (ResponseStatus, u8)>(c@)
                }),
                ReadResult::ParseError(status, id) => ({
                    let consumed = old(serial).rx_pending().take(
                        old(serial).rx_pending().len() - final(serial).rx_pending().len(),
                    );
                    acc_feed(old(self).acc_state(), consumed).0 == final(self).acc_state()
                        && acc_feed(old(self).acc_state(), consumed).1.len() == 1 && frame_outcome(
                        acc_feed(old(self).acc_state(), consumed).1[0],
                    ) == Err::<CommandModel, (ResponseStatus, u8)>((status, id))
                }),
                ReadResult::SerialError(e) => ({
                    let consumed = old(serial).rx_pending().take(
                        old(serial).rx_pending().len() - final(serial).rx_pending().len(),
                    );
                    acc_feed(old(self).acc_state(), consumed).0 == final(self).acc_state()
                        && acc_feed(old(self).acc_state(), consumed).1.len() == 0 && old(
                        serial,
                    ).rx_pending() == consumed + final(serial).rx_pending()
                }),
            },
    {
        let mut buf: Vec<u8> = Vec::new();
        buf.push(0);
        loop
            invariant
                buf@.len() == 1,
                self.wf(),
                self.seq_counter() == old(self).seq_counter(),
                serial.tx_written() == old(serial).tx_written(),
                serial.rx_pending().len() <= old(serial).rx_pending().len(),
                ({
                    let consumed = old(serial).rx_pending().take(
                        old(serial).rx_pending().len() - serial.rx_pending().len(),
                    );
                    acc_feed(old(self).acc_state(), consumed).0 == self.acc_state() && acc_feed(
                        old(self).acc_state(),
                        consumed,
                    ).1.len() == 0 && old(serial).rx_pending() == consumed + serial.rx_pending()
                }),
            decreases serial.rx_pending().len(),
        {
            let ghost pending_top = serial.rx_pending();
            let ghost consumed_top = old(serial).rx_pending().take(
                old(serial).rx_pending().len() - pending_top.len(),
            );
            let ghost acc_top = self.acc_state();
            let n = match serial.read(buf.as_mut_slice()) {
                Ok(n) => n,
                Err(e) => {
                    return ReadResult::SerialError(e);
                },
            };
            if n == 0 {
                // the port ran dry before a frame completed
                proof {
                    assert(serial.rx_pending() =~= pending_top.skip(0));
                    assert(serial.rx_pending() =~= pending_top);
                }
                return ReadResult::SerialError(SerialError::Timeout);
            }
            let byte: u8 = buf[0];
            proof {
                assert(buf@.take(1)[0] == buf@[0]);
                assert(pending_top.take(1)[0] == pending_top[0]);
                assert(byte == pending_top[0]);
                assert(serial.rx_pending() == pending_top.skip(1));
                let k = old(serial).rx_pending().len() - serial.rx_pending().len();
                let consumed = old(serial).rx_pending().take(k as int);
                assert(consumed =~= consumed_top.push(byte));
                assert(consumed_top + seq![byte] =~= consumed);
                crate::framing::lemma_acc_feed_concat(
                    old(self).acc_state(),
                    consumed_top,
                    seq![byte],
                );
                assert(seq![byte][0] == byte);
                assert(seq![byte].skip(1) =~= Seq::<u8>::empty());
                assert(acc_feed(acc_step(acc_top, byte).0, seq![byte].skip(1)) == (
                    acc_step(acc_top, byte).0,
                    Seq::<Seq<u8>>::empty(),
                ));
                assert(old(serial).rx_pending() =~= consumed + serial.rx_pending());
            }
            let completed = self.accumulator.push(byte);
            match completed {
                Some(frame) => {
                    proof {
                        let k = old(serial).rx_pending().len() - serial.rx_pending().len();
                        let consumed = old(serial).rx_pending().take(k as int);
                        assert(acc_feed(acc_top, seq![byte]).1 =~= seq![frame@]);
                        assert(acc_feed(old(self).acc_state(), consumed).1 =~= seq![frame@]);
                    }
                    match process_frame(&self.parser, &frame) {
                        Ok(c) => {
                            return ReadResult::Command(c);
                        },
                        Err((status, id)) => {
                            return ReadResult::ParseError(status, id);
                        },
                    }
                },
                None => {
                    proof {
                        let k = old(serial).rx_pending().len() - serial.rx_pending().len();
                        let consumed = old(serial).rx_pending().take(k as int);
                        assert(acc_feed(acc_top, seq![byte]).1 =~= Seq::<Seq<u8>>::empty());
                        assert(acc_feed(old(self).acc_state(), consumed).1
                            =~= Seq::<Seq<u8>>::empty());
                    }
                },
            }
        }
    }

    /// Reset the reader state, discarding any partial frame.
    pub fn reset(&mut self)
        ensures
            final(self).acc_state() == Seq::<u8>::empty(),
            final(self).wf(),
            final(self).seq_counter() == old(self).seq_counter(),
    {
        self.accumulator.reset();
    }
}

impl Default for SerialCommandReader {
    fn default() -> (r: SerialCommandReader)
        ensures
            r.acc_state() == Seq::<u8>::empty(),
            r.seq_counter() == 0,
            r.wf(),
    {
        SerialCommandReader::new()
    }
}

impl Default for MockSerialPort {
    fn default() -> (r: MockSerialPort)
        ensures
            r.rx_pending() == Seq::<u8>::empty(),
            r.tx_written() == Seq::<u8>::empty(),
    {
        MockSerialPort::new()
    }
}

} // verus!
