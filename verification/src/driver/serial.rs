//! The driver of a Z-Wave controller behind a serial link.
//!
//! [`SerialDriver`] holds the byte stream but never reads or writes it. An
//! operation begins with [`SerialDriver::write`], [`SerialDriver::read`],
//! [`SerialDriver::get_node_ids`] or [`SerialDriver::get_node_generic_class`]
//! and goes on with [`SerialDriver::resume`]: each of them says what to do with
//! the byte stream next, and `resume` takes what came of it, until the
//! operation is done. What the driver does with every event is the state
//! machine of [`super::protocol`].

use super::laws::{begin_keeps_wf, next_keeps_wf, wf};
use super::protocol::{
    after_ack_read, after_drain, after_drain_read, after_response_read, begin, bit_at,
    decode_result, discovery_request, drain_on, expect, generic_class_result, hand_out, idle,
    initial, is_accepted, is_whole, lists_node, next, next_msg_id, node_ids_result,
    node_ids_up_to, not_reading, protocol_info_request, read_next, reply_to, send_data,
    standard_tries, DriverView, Stage, Task, Tries, DRAIN_TRIES, NODE_BITMAP_MARKER,
    NODE_BITMAP_PAYLOAD, QUERY_ACK_TRIES, RESPONSE_TRIES, WRITE_ACK_TRIES,
};
use super::{frame_result_view, Action, Event, ReadStep, Reply};
use crate::defs::{
    encode, GenericType, SerialMessage, SerialMessageFunction, SerialMessageHeader,
    SerialMessageType, SerialTransmissionType,
};
use crate::error::{Error, ErrorKind, IoErrorKind};
use vstd::prelude::*;

verus! {

/// What a byte does to the frame that is being read.
#[derive(Debug)]
enum FrameStep {
    /// The frame needs more bytes.
    More,
    /// The frame is whole: this is what it is read as, and the header that
    /// answers it, if it is to be answered.
    Whole(Result<SerialMessage, Error>, Option<SerialMessageHeader>),
}

/// What to do after one byte was asked of the byte stream.
#[derive(Debug, PartialEq, Eq)]
pub enum ByteStep {
    /// Ask again, with this many tries left.
    Retry(Option<usize>),
    /// The byte, or the failure that ends the read.
    Done(Result<u8, Error>),
}

impl Tries {
    /// Returns the tries that a driver has unless others are asked for: three
    /// for each frame of the drain, ten for the `ACK` of a command, five for the
    /// `ACK` of a question to the controller, ten for a response.
    pub fn standard() -> (tries: Tries)
        ensures
            tries == standard_tries(),
    {
        Tries {
            drain: DRAIN_TRIES,
            write_ack: WRITE_ACK_TRIES,
            query_ack: QUERY_ACK_TRIES,
            response: RESPONSE_TRIES,
        }
    }
}

/// The driver of a Z-Wave controller behind the byte stream `device`.
pub struct SerialDriver<D> {
    /// The byte stream. The driver itself never touches it.
    pub device: D,
    limits: Tries,
    message_id: u8,
    messages: Vec<SerialMessage>,
    task: Task,
    stage: Stage,
    buf: Vec<u8>,
    tries: u32,
    pending: Option<Result<SerialMessage, Error>>,
    outgoing: Vec<u8>,
}

impl<D> View for SerialDriver<D> {
    type V = DriverView;

    closed spec fn view(&self) -> DriverView {
        DriverView {
            limits: self.limits,
            message_id: self.message_id,
            messages: self.messages@.map_values(|frame: SerialMessage| frame@),
            task: self.task,
            stage: self.stage,
            buf: self.buf@,
            tries: self.tries,
            pending: match self.pending {
                Some(result) => Some(frame_result_view(result)),
                None => None,
            },
            outgoing: self.outgoing@,
        }
    }
}

impl<D> SerialDriver<D> {
    /// The byte stream that the driver holds.
    pub closed spec fn stream(&self) -> D {
        self.device
    }

    /// Creates the driver of the controller behind `device`, with the standard
    /// tries. Nothing is in progress, nothing is queued, and no command was
    /// sent yet.
    pub fn new(device: D) -> (driver: SerialDriver<D>)
        ensures
            driver@ == initial(standard_tries()),
            driver.stream() == device,
            wf(driver@),
    {
        SerialDriver::with_tries(device, Tries::standard())
    }

    /// Creates the driver of the controller behind `device`, with the tries
    /// `limits`. Nothing is in progress, nothing is queued, and no command was
    /// sent yet.
    pub fn with_tries(device: D, limits: Tries) -> (driver: SerialDriver<D>)
        ensures
            driver@ == initial(limits),
            driver.stream() == device,
            wf(driver@),
    {
        let driver = SerialDriver {
            device,
            limits,
            message_id: 0x00,
            messages: Vec::new(),
            task: Task::Idle,
            stage: Stage::Drain,
            buf: Vec::new(),
            tries: 0,
            pending: None,
            outgoing: Vec::new(),
        };
        assert(driver@ =~= initial(limits));
        driver
    }

    /// Decides what follows after one byte was asked of the byte stream, with
    /// `timeout` tries left.
    ///
    /// A byte ends the read. A read that timed out is tried again as long as
    /// more than one try is left; without tries to count it is not tried again.
    /// Every other failure ends the read.
    pub fn read_byte(&self, outcome: Result<u8, Error>, timeout: Option<usize>) -> (step: ByteStep)
        ensures
            step == match outcome {
                Ok(byte) => ByteStep::Done(Ok(byte)),
                Err(e) => match timeout {
                    Some(tries) if e.kind() == ErrorKind::Io(IoErrorKind::TimedOut) && tries > 1 =>
                        ByteStep::Retry(Some((tries - 1) as usize)),
                    _ => ByteStep::Done(Err(e)),
                },
            },
    {
        match outcome {
            Ok(byte) => ByteStep::Done(Ok(byte)),
            Err(e) => {
                if e.kind() == ErrorKind::Io(IoErrorKind::TimedOut) {
                    if let Some(t) = timeout {
                        if t > 1 {
                            return ByteStep::Retry(Some(t - 1));
                        }
                    }
                }
                ByteStep::Done(Err(e))
            },
        }
    }

    /// Advances the id of the last command and returns it: one more, and one
    /// after 255. Zero is never returned, and the driver keeps the id that it
    /// returned.
    ///
    /// The driver does this itself when a command was sent. While a command is
    /// being sent its frame carries the id after the last one, so the id is not
    /// to be advanced from outside then.
    pub fn get_next_msg_id(&mut self) -> (id: u8)
        ensures
            id == next_msg_id(old(self)@.message_id),
            id != 0,
            old(self)@.message_id < 255 ==> id == old(self)@.message_id + 1,
            old(self)@.message_id == 255 ==> id == 1,
            final(self)@ == (DriverView { message_id: id, ..old(self)@ }),
            final(self).stream() == old(self).stream(),
            (wf(old(self)@) && old(self)@.task != Task::Write) ==> wf(final(self)@),
    {
        self.message_id = self.message_id.wrapping_add(1);
        if self.message_id == 0x00 {
            self.message_id = 1;
        }
        assert(self@ =~= (DriverView { message_id: self.message_id, ..old(self)@ }));
        self.message_id
    }

    /// Takes one byte into the frame that is being read.
    ///
    /// Where the frame is whole with it, the frame is read and the bytes are
    /// given up. A structured frame is to be answered: with `ACK` where it is
    /// valid, with `NAK` where it is not.
    fn read_single_msg(&mut self, byte: u8) -> (step: FrameStep)
        ensures
            final(self).stream() == old(self).stream(),
            match step {
                FrameStep::More => {
                    &&& !is_whole(old(self)@.buf.push(byte))
                    &&& final(self)@ == (DriverView {
                        buf: old(self)@.buf.push(byte),
                        ..old(self)@
                    })
                },
                FrameStep::Whole(result, reply) => {
                    &&& is_whole(old(self)@.buf.push(byte))
                    &&& final(self)@ == (DriverView { buf: Seq::empty(), ..old(self)@ })
                    &&& frame_result_view(result) == decode_result(old(self)@.buf.push(byte))
                    &&& reply == reply_to(old(self)@.buf.push(byte))
                },
            },
    {
        self.buf.push(byte);
        let len = self.buf.len();
        let structured = self.buf[0] == SerialMessageHeader::SOF.as_byte();
        if structured && (len < 2 || len != self.buf[1] as usize + 2) {
            assert(self@ =~= (DriverView { buf: old(self)@.buf.push(byte), ..old(self)@ }));
            return FrameStep::More;
        }
        let result = SerialMessage::parse(self.buf.as_slice());
        let reply = if structured {
            if result.is_ok() {
                Some(SerialMessageHeader::ACK)
            } else {
                Some(SerialMessageHeader::NAK)
            }
        } else {
            None
        };
        self.buf.clear();
        assert(self@ =~= (DriverView { buf: Seq::empty(), ..old(self)@ }));
        FrameStep::Whole(result, reply)
    }

    /// Gives up the frame that is being read.
    fn stop_reading(&mut self)
        ensures
            final(self).stream() == old(self).stream(),
            final(self)@ == not_reading(old(self)@),
    {
        self.buf.clear();
        self.tries = 0;
        self.pending = None;
        assert(self@ =~= not_reading(old(self)@));
    }

    /// Begins the read of a frame with `tries` tries.
    fn start_reading(&mut self, tries: u32)
        ensures
            final(self).stream() == old(self).stream(),
            final(self)@ == (DriverView { buf: Seq::empty(), tries, pending: None, ..old(self)@ }),
    {
        self.buf.clear();
        self.tries = tries;
        self.pending = None;
        assert(self@ =~= (DriverView { buf: Seq::empty(), tries, pending: None, ..old(self)@ }));
    }

    /// Ends whatever is in progress. The id and the queue stay.
    fn finish(&mut self)
        ensures
            final(self).stream() == old(self).stream(),
            final(self)@ == idle(old(self)@),
    {
        self.task = Task::Idle;
        self.stage = Stage::Drain;
        self.buf.clear();
        self.tries = 0;
        self.pending = None;
        self.outgoing.clear();
        assert(self@ =~= idle(old(self)@));
    }

    /// Takes an event into the read of one frame, and says how the read goes
    /// on: the step that `read_next` gives.
    ///
    /// A read that timed out starts the frame again while more than one try is
    /// left. Every other failure of what was asked for ends the read with that
    /// very failure.
    fn read_single_msg_rty(&mut self, event: Event) -> (step: ReadStep)
        ensures
            final(self).stream() == old(self).stream(),
            final(self)@ == read_next(old(self)@, event@).0,
            step@ == read_next(old(self)@, event@).1,
            (old(self)@.tries > 0 || old(self)@.pending is Some) ==> (event matches Event::Failed(
                e,
            ) ==> (step matches ReadStep::Done(Err(failure)) ==> failure == e)),
    {
        if self.pending.is_some() {
            let result = self.pending.take().unwrap();
            self.stop_reading();
            return match event {
                Event::Written => ReadStep::Done(result),
                Event::Failed(e) => ReadStep::Done(Err(e)),
                Event::Byte(_) => ReadStep::Done(
                    Err(
                        Error::new(
                            ErrorKind::InvalidInput,
                            "A byte was read where a write was asked for",
                        ),
                    ),
                ),
            };
        }
        if self.tries == 0 {
            self.stop_reading();
            return ReadStep::Done(
                Err(Error::new(ErrorKind::InvalidInput, "No frame is being read")),
            );
        }
        match event {
            Event::Byte(byte) => match self.read_single_msg(byte) {
                FrameStep::More => ReadStep::Read,
                FrameStep::Whole(result, None) => {
                    self.stop_reading();
                    ReadStep::Done(result)
                },
                FrameStep::Whole(result, Some(header)) => {
                    self.pending = Some(result);
                    let answer = vec![header.as_byte()];
                    assert(answer@ =~= seq![header.as_byte()]);
                    assert(self@ =~= read_next(old(self)@, event@).0);
                    ReadStep::Write(answer)
                },
            },
            Event::Failed(e) => {
                if e.kind() == ErrorKind::Io(IoErrorKind::TimedOut) && self.tries > 1 {
                    self.buf.clear();
                    self.tries = self.tries - 1;
                    assert(self@ =~= read_next(old(self)@, event@).0);
                    ReadStep::Read
                } else {
                    self.stop_reading();
                    ReadStep::Done(Err(e))
                }
            },
            Event::Written => {
                self.stop_reading();
                ReadStep::Done(
                    Err(
                        Error::new(
                            ErrorKind::InvalidInput,
                            "A write ended where a read was asked for",
                        ),
                    ),
                )
            },
        }
    }

    /// Ends the operation that hands out a queued frame.
    fn hand_out_oldest(&mut self) -> (action: Action)
        ensures
            final(self).stream() == old(self).stream(),
            final(self)@ == hand_out(old(self)@).0,
            action@ == hand_out(old(self)@).1,
    {
        if self.messages.len() < 1 {
            self.finish();
            Action::Done(
                Err(
                    Error::new(
                        ErrorKind::Io(IoErrorKind::Other),
                        "No message with the given id received",
                    ),
                ),
            )
        } else {
            let oldest = self.messages.remove(0);
            self.finish();
            assert(self@ =~= hand_out(old(self)@).0);
            Action::Done(Ok(Reply::Payload(oldest.data)))
        }
    }

    /// Goes on after the drain.
    fn leave_drain(&mut self) -> (action: Action)
        ensures
            final(self).stream() == old(self).stream(),
            final(self)@ == after_drain(old(self)@).0,
            action@ == after_drain(old(self)@).1,
    {
        if self.task == Task::Read {
            self.hand_out_oldest()
        } else {
            self.stop_reading();
            self.stage = Stage::Send;
            assert(self@ =~= after_drain(old(self)@).0);
            Action::Write(self.outgoing.clone())
        }
    }

    /// Begins the next read of the drain.
    fn go_on_draining(&mut self) -> (action: Action)
        ensures
            final(self).stream() == old(self).stream(),
            final(self)@ == drain_on(old(self)@).0,
            action@ == drain_on(old(self)@).1,
    {
        if self.limits.drain == 0 {
            self.leave_drain()
        } else {
            self.start_reading(self.limits.drain);
            Action::Read
        }
    }

    /// Begins the read of the frame that the stage `stage` waits for.
    fn expect_frame(&mut self, stage: Stage, tries: u32) -> (action: Action)
        ensures
            final(self).stream() == old(self).stream(),
            final(self)@ == expect(old(self)@, stage, tries).0,
            action@ == expect(old(self)@, stage, tries).1,
    {
        if tries == 0 {
            self.finish();
            Action::Done(Err(Error::new(ErrorKind::Io(IoErrorKind::TimedOut), "Timeout")))
        } else {
            self.start_reading(tries);
            self.stage = stage;
            assert(self@ =~= expect(old(self)@, stage, tries).0);
            Action::Read
        }
    }

    /// Takes what a read of the drain ended with, and says how the operation
    /// goes on: the step that `after_drain_read` gives.
    ///
    /// A timeout ends the drain. A structured request is queued, every other
    /// frame is dropped, and the drain reads on.
    fn read_all_msg(&mut self, result: Result<SerialMessage, Error>) -> (action: Action)
        ensures
            final(self).stream() == old(self).stream(),
            final(self)@ == after_drain_read(old(self)@, frame_result_view(result)).0,
            action@ == after_drain_read(old(self)@, frame_result_view(result)).1,
            result matches Err(e) ==> (e.kind() != ErrorKind::Io(IoErrorKind::TimedOut)
                ==> action == Action::Done(Err(e))),
    {
        match result {
            Err(e) => {
                if e.kind() == ErrorKind::Io(IoErrorKind::TimedOut) {
                    self.leave_drain()
                } else {
                    self.finish();
                    Action::Done(Err(e))
                }
            },
            Ok(frame) => {
                if frame.header == SerialMessageHeader::SOF && frame.typ
                    == SerialMessageType::Request {
                    self.messages.push(frame);
                    assert(self@ =~= (DriverView {
                        messages: old(self)@.messages.push(frame@),
                        ..old(self)@
                    }));
                }
                self.go_on_draining()
            },
        }
    }

    /// Takes what the read of the `ACK` ended with.
    fn after_ack(&mut self, result: Result<SerialMessage, Error>) -> (action: Action)
        ensures
            final(self).stream() == old(self).stream(),
            final(self)@ == after_ack_read(old(self)@, frame_result_view(result)).0,
            action@ == after_ack_read(old(self)@, frame_result_view(result)).1,
            result matches Err(e) ==> (e.kind() != ErrorKind::Io(IoErrorKind::TimedOut)
                ==> action == Action::Done(Err(e))),
    {
        match result {
            Err(e) => {
                self.finish();
                Action::Done(Err(e))
            },
            Ok(frame) => {
                if frame.header == SerialMessageHeader::ACK {
                    self.expect_frame(Stage::Response, self.limits.response)
                } else {
                    self.finish();
                    Action::Done(
                        Err(
                            Error::new(
                                ErrorKind::Io(IoErrorKind::InvalidData),
                                "The driver refused the data - No ACK package",
                            ),
                        ),
                    )
                }
            },
        }
    }

    /// Takes what the read of the response ended with.
    fn after_response(&mut self, result: Result<SerialMessage, Error>) -> (action: Action)
        ensures
            final(self).stream() == old(self).stream(),
            final(self)@ == after_response_read(old(self)@, frame_result_view(result)).0,
            action@ == after_response_read(old(self)@, frame_result_view(result)).1,
            result matches Err(e) ==> (e.kind() != ErrorKind::Io(IoErrorKind::TimedOut)
                ==> action == Action::Done(Err(e))),
    {
        let task = self.task;
        self.finish();
        match result {
            Err(e) => Action::Done(Err(e)),
            Ok(frame) => match task {
                Task::Write => {
                    if is_acceptance(&frame) {
                        let id = self.get_next_msg_id();
                        Action::Done(Ok(Reply::MessageId(id)))
                    } else {
                        Action::Done(
                            Err(
                                Error::new(
                                    ErrorKind::Io(IoErrorKind::InvalidData),
                                    "The driver refused the data - Negative response message",
                                ),
                            ),
                        )
                    }
                },
                Task::NodeIds => match decode_node_ids(frame.data.as_slice()) {
                    Ok(ids) => Action::Done(Ok(Reply::NodeIds(ids))),
                    Err(e) => Action::Done(Err(e)),
                },
                Task::GenericClass => match decode_generic_class(frame.data.as_slice()) {
                    Ok(typ) => Action::Done(Ok(Reply::GenericClass(typ))),
                    Err(e) => Action::Done(Err(e)),
                },
                _ => Action::Done(
                    Err(Error::new(ErrorKind::InvalidInput, "No response was asked for")),
                ),
            },
        }
    }

    /// Begins an operation: the drain starts, and `outgoing` waits for its end.
    fn start(&mut self, task: Task, outgoing: Vec<u8>) -> (action: Action)
        ensures
            final(self).stream() == old(self).stream(),
            final(self)@ == begin(old(self)@, task, outgoing@).0,
            action@ == begin(old(self)@, task, outgoing@).1,
    {
        self.stop_reading();
        self.task = task;
        self.stage = Stage::Drain;
        self.outgoing = outgoing;
        assert(self@ =~= (DriverView {
            task,
            stage: Stage::Drain,
            outgoing: outgoing@,
            ..not_reading(old(self)@)
        }));
        self.go_on_draining()
    }

    /// Begins the sending of the command `message` to its node, and says what to
    /// do first.
    ///
    /// The link is drained, then the command is written in a frame that carries
    /// it under the id after the last one. The operation gives that id, and
    /// only then does the id of the driver advance. An operation that was in
    /// progress is given up.
    pub fn write(&mut self, message: Vec<u8>) -> (action: Action)
        ensures
            final(self).stream() == old(self).stream(),
            final(self)@ == begin(
                old(self)@,
                Task::Write,
                encode(send_data(message@, next_msg_id(old(self)@.message_id))),
            ).0,
            action@ == begin(
                old(self)@,
                Task::Write,
                encode(send_data(message@, next_msg_id(old(self)@.message_id))),
            ).1,
            wf(old(self)@) ==> wf(final(self)@),
    {
        proof {
            if wf(self@) {
                begin_keeps_wf(
                    self@,
                    Task::Write,
                    message@,
                    encode(send_data(message@, next_msg_id(self@.message_id))),
                );
            }
        }
        let frame = send_data_frame(message, id_after(self.message_id));
        self.start(Task::Write, frame.get_command())
    }

    /// Begins the handing out of the oldest queued frame, and says what to do
    /// first. The link is drained, then the operation gives the payload of the
    /// frame. An operation that was in progress is given up.
    pub fn read(&mut self) -> (action: Action)
        ensures
            final(self).stream() == old(self).stream(),
            final(self)@ == begin(old(self)@, Task::Read, Seq::empty()).0,
            action@ == begin(old(self)@, Task::Read, Seq::empty()).1,
            wf(old(self)@) ==> wf(final(self)@),
    {
        proof {
            if wf(self@) {
                begin_keeps_wf(self@, Task::Read, Seq::empty(), Seq::empty());
            }
        }
        self.start(Task::Read, Vec::new())
    }

    /// Begins the question for the ids of the nodes of the network, and says
    /// what to do first. The link is drained, then the question is written. An
    /// operation that was in progress is given up.
    pub fn get_node_ids(&mut self) -> (action: Action)
        ensures
            final(self).stream() == old(self).stream(),
            final(self)@ == begin(old(self)@, Task::NodeIds, encode(discovery_request())).0,
            action@ == begin(old(self)@, Task::NodeIds, encode(discovery_request())).1,
            wf(old(self)@) ==> wf(final(self)@),
    {
        proof {
            if wf(self@) {
                begin_keeps_wf(self@, Task::NodeIds, Seq::empty(), encode(discovery_request()));
            }
        }
        let frame = SerialMessage::new(
            SerialMessageType::Request,
            SerialMessageFunction::DiscoveryNodes,
            Vec::new(),
        );
        assert(frame@ =~= discovery_request());
        self.start(Task::NodeIds, frame.get_command())
    }

    /// Begins the question for the generic type of the node `node_id`, and says
    /// what to do first. The link is drained, then the question is written. An
    /// operation that was in progress is given up.
    pub fn get_node_generic_class(&mut self, node_id: u8) -> (action: Action)
        ensures
            final(self).stream() == old(self).stream(),
            final(self)@ == begin(
                old(self)@,
                Task::GenericClass,
                encode(protocol_info_request(node_id)),
            ).0,
            action@ == begin(
                old(self)@,
                Task::GenericClass,
                encode(protocol_info_request(node_id)),
            ).1,
            wf(old(self)@) ==> wf(final(self)@),
    {
        proof {
            if wf(self@) {
                begin_keeps_wf(
                    self@,
                    Task::GenericClass,
                    Seq::empty(),
                    encode(protocol_info_request(node_id)),
                );
            }
        }
        let frame = SerialMessage::new(
            SerialMessageType::Request,
            SerialMessageFunction::GetNodeProtocolInfo,
            vec![node_id],
        );
        assert(frame@ =~= protocol_info_request(node_id));
        self.start(Task::GenericClass, frame.get_command())
    }

    /// Takes what came of the last action, and says what to do next: the step
    /// that `next` gives.
    ///
    /// A failure of what was asked of the byte stream, other than a read that
    /// timed out, ends the operation with that very failure.
    pub fn resume(&mut self, event: Event) -> (action: Action)
        ensures
            final(self).stream() == old(self).stream(),
            final(self)@ == next(old(self)@, event@).0,
            action@ == next(old(self)@, event@).1,
            wf(old(self)@) ==> wf(final(self)@),
            (old(self)@.task != Task::Idle && wf(old(self)@)) ==> (event matches Event::Failed(e)
                ==> (e.kind() != ErrorKind::Io(IoErrorKind::TimedOut) ==> action == Action::Done(
                Err(e),
            ))),
    {
        proof {
            if wf(self@) {
                next_keeps_wf(self@, event@);
            }
        }
        if self.task == Task::Idle {
            return Action::Done(
                Err(Error::new(ErrorKind::InvalidInput, "No operation is in progress")),
            );
        }
        if self.stage == Stage::Send {
            return match event {
                Event::Written => {
                    let tries = if self.task == Task::Write {
                        self.limits.write_ack
                    } else {
                        self.limits.query_ack
                    };
                    self.expect_frame(Stage::Ack, tries)
                },
                Event::Failed(e) => {
                    self.finish();
                    Action::Done(Err(e))
                },
                Event::Byte(_) => {
                    self.finish();
                    Action::Done(
                        Err(
                            Error::new(
                                ErrorKind::InvalidInput,
                                "A byte was read where a write was asked for",
                            ),
                        ),
                    )
                },
            };
        }
        match self.read_single_msg_rty(event) {
            ReadStep::Read => Action::Read,
            ReadStep::Write(bytes) => Action::Write(bytes),
            ReadStep::Done(result) => match self.stage {
                Stage::Drain => self.read_all_msg(result),
                Stage::Ack => self.after_ack(result),
                Stage::Response => self.after_response(result),
                Stage::Send => {
                    self.finish();
                    Action::Done(Err(Error::new(ErrorKind::InvalidInput, "No frame was asked for")))
                },
            },
        }
    }

    /// Checks whether bit `n` of `input` is set. No bit beyond the eighth is.
    pub fn get_bit_at(&self, input: u8, n: u8) -> (set: bool)
        ensures
            set == bit_at(input, n),
    {
        bit_is_set(input, n)
    }

    /// Returns a copy of the frames that the controller sent on its own, oldest
    /// first.
    pub fn get_messages(&self) -> (messages: Vec<SerialMessage>)
        ensures
            messages@.map_values(|frame: SerialMessage| frame@) == self@.messages,
    {
        let messages = self.messages.clone();
        assert(messages@.map_values(|frame: SerialMessage| frame@) =~= self@.messages);
        messages
    }

    /// Returns the id under which the last command was sent, zero before the
    /// first.
    pub fn last_msg_id(&self) -> (id: u8)
        ensures
            id == self@.message_id,
    {
        self.message_id
    }
}

/// Checks whether bit `n` of `input` is set. No bit beyond the eighth is.
fn bit_is_set(input: u8, n: u8) -> (set: bool)
    ensures
        set == bit_at(input, n),
{
    if n < 8 {
        input & (1u8 << n) != 0
    } else {
        false
    }
}

/// Returns the id after `id`: one more, and one after 255.
pub fn id_after(id: u8) -> (next: u8)
    ensures
        next == next_msg_id(id),
        next != 0,
{
    if id == 255 {
        1
    } else {
        id + 1
    }
}

/// Builds the frame that carries the command `command` to its node under the
/// id `id`: a request to send data, with the way of routing and the id behind
/// the command.
pub fn send_data_frame(command: Vec<u8>, id: u8) -> (frame: SerialMessage)
    ensures
        frame@ == send_data(command@, id),
{
    let mut message = command;
    message.push(SerialTransmissionType::AutoRoute.as_byte());
    message.push(id);
    let frame = SerialMessage::new(
        SerialMessageType::Request,
        SerialMessageFunction::SendData,
        message,
    );
    assert(frame@ =~= send_data(command@, id));
    frame
}

/// Checks whether `frame` says that the controller took a command.
pub fn is_acceptance(frame: &SerialMessage) -> (accepted: bool)
    ensures
        accepted == is_accepted(frame@),
{
    frame.header == SerialMessageHeader::SOF && frame.typ == SerialMessageType::Response
        && frame.func == SerialMessageFunction::SendData && frame.data.len() >= 1
        && frame.data[0] == 0x01
}

/// Reads the payload `data` as the list of the nodes of the network: their ids
/// in rising order.
///
/// The payload is refused as `UnknownZWave` unless it has 34 bytes and the
/// marker of the list as its third. The ids 1 to 232 stand, in their order, for
/// the bits of the bytes 3 to 31, lowest bit first.
pub fn decode_node_ids(data: &[u8]) -> (ids: Result<Vec<u8>, Error>)
    ensures
        match ids {
            Ok(ids) => node_ids_result(data@) == Ok::<Seq<u8>, ErrorKind>(ids@),
            Err(e) => node_ids_result(data@) is Err && e.kind() == ErrorKind::UnknownZWave,
        },
{
    if data.len() != NODE_BITMAP_PAYLOAD || data[2] != NODE_BITMAP_MARKER {
        return Err(Error::new(ErrorKind::UnknownZWave, "The ZWave message has a wrong format"));
    }
    let mut nodes: Vec<u8> = Vec::new();
    let mut i: usize = 3;
    while i < 32
        invariant
            3 <= i <= 32,
            data@.len() == 34,
            nodes@ == node_ids_up_to(data@, ((i - 3) * 8) as nat),
        decreases 32 - i,
    {
        let mut j: u8 = 0;
        while j < 8
            invariant
                3 <= i < 32,
                j <= 8,
                data@.len() == 34,
                nodes@ == node_ids_up_to(data@, ((i - 3) * 8 + j) as nat),
            decreases 8 - j,
        {
            let id: usize = (i - 3) * 8 + (j as usize + 1);
            proof {
                assert((id - 1) / 8 == i - 3);
                assert((id - 1) % 8 == j);
                assert(lists_node(data@, id as int) == bit_at(data@[i as int], j));
            }
            if bit_is_set(data[i], j) {
                nodes.push(id as u8);
            }
            j = j + 1;
        }
        i = i + 1;
    }
    Ok(nodes)
}

/// Reads the payload `data` as the protocol information of a node: the generic
/// type that its fifth byte names, `Unknown` where it names none.
///
/// The payload is refused as `UnknownZWave` unless it has six bytes.
pub fn decode_generic_class(data: &[u8]) -> (typ: Result<GenericType, Error>)
    ensures
        match typ {
            Ok(typ) => generic_class_result(data@) == Ok::<GenericType, ErrorKind>(typ),
            Err(e) => generic_class_result(data@) is Err && e.kind() == ErrorKind::UnknownZWave,
        },
{
    if data.len() != 6 {
        return Err(Error::new(ErrorKind::UnknownZWave, "The ZWave message has a wrong format"));
    }
    Ok(GenericType::from_byte_or_unknown(data[4]))
}

} // verus!
