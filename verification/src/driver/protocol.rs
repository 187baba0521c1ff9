//! The serial protocol as a state machine: what the driver does with every
//! event, stated as mathematics.
//!
//! An operation of the driver runs in stages. It first drains the link: it
//! reads frames until a read times out, and queues every request that the
//! controller sent on its own. Then it writes its own frame, reads the `ACK` of
//! the link, and reads the response of the controller. The operation that only
//! hands out a queued frame ends after the drain.
//!
//! A frame is read byte by byte. A read that times out gives up the bytes of
//! the frame read so far and starts again, as long as tries are left. A
//! structured frame is answered at once: with `ACK` where it is a valid frame,
//! with `NAK` where it is not.

use super::{ActionView, EventView, ReadStepView, ReplyView};
use crate::defs::{
    decode, GenericType, SerialMessageFunction, SerialMessageHeader, SerialMessageType,
    SerialMessageView, SerialTransmissionType,
};
use crate::error::{ErrorKind, IoErrorKind};
use vstd::prelude::*;

verus! {

/// What the driver is doing.
#[derive(Copy, Clone, Debug, PartialEq, Eq, Structural)]
pub enum Task {
    /// Nothing.
    Idle,
    /// Sending a command to a node.
    Write,
    /// Handing out the oldest queued frame.
    Read,
    /// Asking the controller for the ids of the nodes.
    NodeIds,
    /// Asking the controller for the generic type of a node.
    GenericClass,
}

/// How far the driver has come with what it is doing.
#[derive(Copy, Clone, Debug, PartialEq, Eq, Structural)]
pub enum Stage {
    /// Reading what the controller sent on its own.
    Drain,
    /// Writing the frame of the operation.
    Send,
    /// Reading the `ACK` of the link.
    Ack,
    /// Reading the response of the controller.
    Response,
}

/// How many tries the read of a frame has, for each kind of read. A read that
/// times out uses up one try; a read without a try has timed out before it
/// begins.
#[derive(Copy, Clone, Debug, PartialEq, Eq, Structural)]
pub struct Tries {
    /// For each frame of the drain.
    pub drain: u32,
    /// For the `ACK` of a command.
    pub write_ack: u32,
    /// For the `ACK` of a question to the controller.
    pub query_ack: u32,
    /// For a response.
    pub response: u32,
}

/// The state of the driver, the byte stream aside.
#[verifier::ext_equal]
pub struct DriverView {
    /// The tries that the reads of the driver have.
    pub limits: Tries,
    /// The id under which the last command was sent, zero before the first.
    pub message_id: u8,
    /// The frames that the controller sent on its own, oldest first.
    pub messages: Seq<SerialMessageView>,
    /// What the driver is doing.
    pub task: Task,
    /// How far it has come.
    pub stage: Stage,
    /// The bytes read so far of the frame that is being read.
    pub buf: Seq<u8>,
    /// How many reads of the frame that is being read may still time out before
    /// the read is given up; zero while no frame is being read.
    pub tries: u32,
    /// The frame that was read and waits for its answer to be written.
    pub pending: Option<Result<SerialMessageView, ErrorKind>>,
    /// The bytes that the operation writes once the link is drained.
    pub outgoing: Seq<u8>,
}

/// The tries that each read of the drain has unless others are asked for.
pub const DRAIN_TRIES: u32 = 3;

/// The tries that the read of the `ACK` of a command has unless others are
/// asked for.
pub const WRITE_ACK_TRIES: u32 = 10;

/// The tries that the read of the `ACK` of a question to the controller has
/// unless others are asked for.
pub const QUERY_ACK_TRIES: u32 = 5;

/// The tries that the read of a response has unless others are asked for.
pub const RESPONSE_TRIES: u32 = 10;

/// The marker of a list of nodes: the third byte of the payload.
pub const NODE_BITMAP_MARKER: u8 = 0x1D;

/// The length of the payload that holds the list of nodes.
pub const NODE_BITMAP_PAYLOAD: usize = 34;

/// The highest id that a node can have.
pub const MAX_NODE_ID: u8 = 232;

/// The tries that a driver has unless others are asked for.
pub open spec fn standard_tries() -> Tries {
    Tries {
        drain: DRAIN_TRIES,
        write_ack: WRITE_ACK_TRIES,
        query_ack: QUERY_ACK_TRIES,
        response: RESPONSE_TRIES,
    }
}

/// The state of a driver that has done nothing yet.
pub open spec fn initial(limits: Tries) -> DriverView {
    DriverView {
        limits,
        message_id: 0,
        messages: Seq::empty(),
        task: Task::Idle,
        stage: Stage::Drain,
        buf: Seq::empty(),
        tries: 0,
        pending: None,
        outgoing: Seq::empty(),
    }
}

/// The id after `id`: one more, and one after 255. Zero is never given.
pub open spec fn next_msg_id(id: u8) -> u8 {
    if id == 255 {
        1
    } else {
        (id + 1) as u8
    }
}

/// Whether `bytes` are a whole frame on the link: one byte that is not `SOF`,
/// or `SOF`, a length byte and as many bytes as that says.
pub open spec fn is_whole(bytes: Seq<u8>) -> bool {
    bytes.len() >= 1 && (bytes[0] != SerialMessageHeader::SOF.as_byte() || (bytes.len() >= 2
        && bytes.len() == bytes[1] + 2))
}

/// Whether `bytes` are the beginning of a frame that more bytes must follow.
pub open spec fn is_partial(bytes: Seq<u8>) -> bool {
    bytes.len() == 0 || (bytes[0] == SerialMessageHeader::SOF.as_byte() && (bytes.len() == 1
        || bytes.len() < bytes[1] + 2))
}

/// What reading `bytes` as a frame gives: the frame, or `UnknownZWave`.
pub open spec fn decode_result(bytes: Seq<u8>) -> Result<SerialMessageView, ErrorKind> {
    match decode(bytes) {
        Some(frame) => Ok(frame),
        None => Err(ErrorKind::UnknownZWave),
    }
}

/// The header that answers the whole frame `bytes`: `ACK` for a structured
/// frame that is valid, `NAK` for one that is not, nothing for everything else.
pub open spec fn reply_to(bytes: Seq<u8>) -> Option<SerialMessageHeader> {
    if bytes.len() >= 1 && bytes[0] == SerialMessageHeader::SOF.as_byte() {
        if decode(bytes) is Some {
            Some(SerialMessageHeader::ACK)
        } else {
            Some(SerialMessageHeader::NAK)
        }
    } else {
        None
    }
}

/// The frame that carries the command `command` to its node under the id `id`:
/// a request to send data, with the way of routing and the id behind the
/// command.
pub open spec fn send_data(command: Seq<u8>, id: u8) -> SerialMessageView {
    SerialMessageView {
        header: SerialMessageHeader::SOF,
        typ: SerialMessageType::Request,
        func: SerialMessageFunction::SendData,
        data: command + seq![SerialTransmissionType::AutoRoute.as_byte(), id],
    }
}

/// The frame that asks the controller for the ids of the nodes.
pub open spec fn discovery_request() -> SerialMessageView {
    SerialMessageView {
        header: SerialMessageHeader::SOF,
        typ: SerialMessageType::Request,
        func: SerialMessageFunction::DiscoveryNodes,
        data: Seq::empty(),
    }
}

/// The frame that asks the controller for the protocol information of a node.
pub open spec fn protocol_info_request(node_id: u8) -> SerialMessageView {
    SerialMessageView {
        header: SerialMessageHeader::SOF,
        typ: SerialMessageType::Request,
        func: SerialMessageFunction::GetNodeProtocolInfo,
        data: seq![node_id],
    }
}

/// Whether `frame` says that the controller took a command: a response to the
/// request to send data whose payload begins with `0x01`.
pub open spec fn is_accepted(frame: SerialMessageView) -> bool {
    &&& frame.header == SerialMessageHeader::SOF
    &&& frame.typ == SerialMessageType::Response
    &&& frame.func == SerialMessageFunction::SendData
    &&& frame.data.len() >= 1
    &&& frame.data[0] == 0x01
}

/// Whether `frame` is queued when the drain reads it: every structured request.
pub open spec fn is_unsolicited(frame: SerialMessageView) -> bool {
    frame.header == SerialMessageHeader::SOF && frame.typ == SerialMessageType::Request
}

/// Whether bit `n` of `input` is set; no bit beyond the eighth is.
pub open spec fn bit_at(input: u8, n: u8) -> bool {
    n < 8 && input & (1u8 << n) != 0
}

/// Whether `data` is a payload that lists the nodes of the network.
pub open spec fn has_node_bitmap(data: Seq<u8>) -> bool {
    data.len() == NODE_BITMAP_PAYLOAD && data[2] == NODE_BITMAP_MARKER
}

/// Whether the payload `data` lists the node `id`: the ids 1 to 232 stand, in
/// their order, for the bits of the bytes 3 to 31, lowest bit first.
pub open spec fn lists_node(data: Seq<u8>, id: int) -> bool {
    1 <= id <= MAX_NODE_ID && bit_at(data[3 + (id - 1) / 8], ((id - 1) % 8) as u8)
}

/// The ids up to `limit` that the payload `data` lists, in rising order.
pub open spec fn node_ids_up_to(data: Seq<u8>, limit: nat) -> Seq<u8>
    decreases limit,
{
    if limit == 0 {
        Seq::empty()
    } else {
        let below = node_ids_up_to(data, (limit - 1) as nat);
        if lists_node(data, limit as int) {
            below.push(limit as u8)
        } else {
            below
        }
    }
}

/// The ids that the payload `data` lists, in rising order.
pub open spec fn node_ids_of(data: Seq<u8>) -> Seq<u8> {
    node_ids_up_to(data, MAX_NODE_ID as nat)
}

/// What reading the payload `data` as a list of nodes gives.
pub open spec fn node_ids_result(data: Seq<u8>) -> Result<Seq<u8>, ErrorKind> {
    if has_node_bitmap(data) {
        Ok(node_ids_of(data))
    } else {
        Err(ErrorKind::UnknownZWave)
    }
}

/// What reading the payload `data` as the protocol information of a node gives:
/// the generic type that its fifth byte names, `Unknown` where it names none.
pub open spec fn generic_class_result(data: Seq<u8>) -> Result<GenericType, ErrorKind> {
    if data.len() == 6 {
        Ok(GenericType::from_byte_or_unknown(data[4]))
    } else {
        Err(ErrorKind::UnknownZWave)
    }
}

/// The state with nothing in progress: the id and the queue stay.
pub open spec fn idle(s: DriverView) -> DriverView {
    DriverView {
        task: Task::Idle,
        stage: Stage::Drain,
        buf: Seq::empty(),
        tries: 0,
        pending: None,
        outgoing: Seq::empty(),
        ..s
    }
}

/// The state with no frame being read.
pub open spec fn not_reading(s: DriverView) -> DriverView {
    DriverView { buf: Seq::empty(), tries: 0, pending: None, ..s }
}

/// What the read of one frame does with an event.
///
/// * A byte joins the bytes of the frame. Where the frame is whole with it, the
///   frame is read; a structured frame is answered first.
/// * A read that timed out starts the frame again if a try is left. Every
///   other failure, and a timeout without a try left, ends the read.
/// * Once the answer is written the read ends with the frame; if the write
///   fails it ends with that failure.
/// * An event that answers nothing that was asked ends the read as
///   `InvalidInput`.
pub open spec fn read_next(s: DriverView, event: EventView) -> (DriverView, ReadStepView) {
    match s.pending {
        Some(result) => match event {
            EventView::Written => (not_reading(s), ReadStepView::Done(result)),
            EventView::Failed(kind) => (not_reading(s), ReadStepView::Done(Err(kind))),
            EventView::Byte(_) => (
                not_reading(s),
                ReadStepView::Done(Err(ErrorKind::InvalidInput)),
            ),
        },
        None => if s.tries == 0 {
            (not_reading(s), ReadStepView::Done(Err(ErrorKind::InvalidInput)))
        } else {
            match event {
                EventView::Byte(byte) => {
                    let bytes = s.buf.push(byte);
                    if !is_whole(bytes) {
                        (DriverView { buf: bytes, ..s }, ReadStepView::Read)
                    } else {
                        match reply_to(bytes) {
                            None => (not_reading(s), ReadStepView::Done(decode_result(bytes))),
                            Some(header) => (
                                DriverView {
                                    buf: Seq::empty(),
                                    pending: Some(decode_result(bytes)),
                                    ..s
                                },
                                ReadStepView::Write(seq![header.as_byte()]),
                            ),
                        }
                    }
                },
                EventView::Failed(kind) => if kind == ErrorKind::Io(IoErrorKind::TimedOut)
                    && s.tries > 1 {
                    (
                        DriverView { buf: Seq::empty(), tries: (s.tries - 1) as u32, ..s },
                        ReadStepView::Read,
                    )
                } else {
                    (not_reading(s), ReadStepView::Done(Err(kind)))
                },
                EventView::Written => (
                    not_reading(s),
                    ReadStepView::Done(Err(ErrorKind::InvalidInput)),
                ),
            }
        },
    }
}

/// The tries that the read of the `ACK` has in the operation in progress.
pub open spec fn ack_tries(s: DriverView) -> u32 {
    if s.task == Task::Write {
        s.limits.write_ack
    } else {
        s.limits.query_ack
    }
}

/// The end of the operation that hands out a queued frame: the payload of the
/// oldest frame, which leaves the queue, or `Io(Other)` where the queue is
/// empty.
pub open spec fn hand_out(s: DriverView) -> (DriverView, ActionView) {
    if s.messages.len() == 0 {
        (idle(s), ActionView::Done(Err(ErrorKind::Io(IoErrorKind::Other))))
    } else {
        (
            DriverView { messages: s.messages.skip(1), ..idle(s) },
            ActionView::Done(Ok(ReplyView::Payload(s.messages[0].data))),
        )
    }
}

/// What follows the drain: the operation that hands out a queued frame ends,
/// every other operation writes its frame.
pub open spec fn after_drain(s: DriverView) -> (DriverView, ActionView) {
    if s.task == Task::Read {
        hand_out(s)
    } else {
        (DriverView { stage: Stage::Send, ..not_reading(s) }, ActionView::Write(s.outgoing))
    }
}

/// The next read of the drain, or its end where the drain has no tries.
pub open spec fn drain_on(s: DriverView) -> (DriverView, ActionView) {
    if s.limits.drain == 0 {
        after_drain(s)
    } else {
        (
            DriverView { buf: Seq::empty(), tries: s.limits.drain, pending: None, ..s },
            ActionView::Read,
        )
    }
}

/// The start of an operation: the drain begins, and `outgoing` waits for its end.
pub open spec fn begin(s: DriverView, task: Task, outgoing: Seq<u8>) -> (DriverView, ActionView) {
    drain_on(DriverView { task, stage: Stage::Drain, outgoing, ..not_reading(s) })
}

/// The start of the read of the frame that the stage `stage` waits for, with
/// `tries` tries. Without a try the read has timed out, and the operation with
/// it.
pub open spec fn expect(s: DriverView, stage: Stage, tries: u32) -> (DriverView, ActionView) {
    if tries == 0 {
        (idle(s), ActionView::Done(Err(ErrorKind::Io(IoErrorKind::TimedOut))))
    } else {
        (DriverView { stage, buf: Seq::empty(), tries, pending: None, ..s }, ActionView::Read)
    }
}

/// What the drain does with the frame, or the failure, that a read ended with.
///
/// A timeout ends the drain. Any other failure ends the operation. A frame is
/// queued if it is a structured request, and the drain reads on.
pub open spec fn after_drain_read(s: DriverView, result: Result<SerialMessageView, ErrorKind>) -> (
    DriverView,
    ActionView,
) {
    match result {
        Err(kind) => if kind == ErrorKind::Io(IoErrorKind::TimedOut) {
            after_drain(s)
        } else {
            (idle(s), ActionView::Done(Err(kind)))
        },
        Ok(frame) => if is_unsolicited(frame) {
            drain_on(DriverView { messages: s.messages.push(frame), ..s })
        } else {
            drain_on(s)
        },
    }
}

/// What the driver does with the frame, or the failure, that the read of the
/// `ACK` ended with: on `ACK` it reads the response, everything else ends the
/// operation, another frame as `Io(InvalidData)`.
pub open spec fn after_ack_read(s: DriverView, result: Result<SerialMessageView, ErrorKind>) -> (
    DriverView,
    ActionView,
) {
    match result {
        Err(kind) => (idle(s), ActionView::Done(Err(kind))),
        Ok(frame) => if frame.header == SerialMessageHeader::ACK {
            expect(s, Stage::Response, s.limits.response)
        } else {
            (idle(s), ActionView::Done(Err(ErrorKind::Io(IoErrorKind::InvalidData))))
        },
    }
}

/// What the driver does with the frame, or the failure, that the read of the
/// response ended with. The operation is over either way.
///
/// * A command was sent if the controller took it; only then does the id
///   advance. Anything else fails as `Io(InvalidData)`.
/// * The ids of the nodes are read from the payload.
/// * The generic type of the node is read from the payload.
pub open spec fn after_response_read(
    s: DriverView,
    result: Result<SerialMessageView, ErrorKind>,
) -> (DriverView, ActionView) {
    match result {
        Err(kind) => (idle(s), ActionView::Done(Err(kind))),
        Ok(frame) => match s.task {
            Task::Write => if is_accepted(frame) {
                (
                    DriverView { message_id: next_msg_id(s.message_id), ..idle(s) },
                    ActionView::Done(Ok(ReplyView::MessageId(next_msg_id(s.message_id)))),
                )
            } else {
                (idle(s), ActionView::Done(Err(ErrorKind::Io(IoErrorKind::InvalidData))))
            },
            Task::NodeIds => (
                idle(s),
                ActionView::Done(
                    match node_ids_result(frame.data) {
                        Ok(ids) => Ok(ReplyView::NodeIds(ids)),
                        Err(kind) => Err(kind),
                    },
                ),
            ),
            Task::GenericClass => (
                idle(s),
                ActionView::Done(
                    match generic_class_result(frame.data) {
                        Ok(typ) => Ok(ReplyView::GenericClass(typ)),
                        Err(kind) => Err(kind),
                    },
                ),
            ),
            _ => (idle(s), ActionView::Done(Err(ErrorKind::InvalidInput))),
        },
    }
}

/// What the driver does with the frame, or the failure, that a read ended with.
pub open spec fn after_read(s: DriverView, result: Result<SerialMessageView, ErrorKind>) -> (
    DriverView,
    ActionView,
) {
    match s.stage {
        Stage::Drain => after_drain_read(s, result),
        Stage::Ack => after_ack_read(s, result),
        Stage::Response => after_response_read(s, result),
        Stage::Send => (idle(s), ActionView::Done(Err(ErrorKind::InvalidInput))),
    }
}

/// What the driver does with an event.
///
/// * With nothing in progress the event answers nothing: `InvalidInput`.
/// * While the frame of the operation is being written: once it is written the
///   read of the `ACK` begins; a failure ends the operation.
/// * In every other stage a frame is being read: the event goes to that read,
///   and where the read ends, the stage decides.
pub open spec fn next(s: DriverView, event: EventView) -> (DriverView, ActionView) {
    if s.task == Task::Idle {
        (s, ActionView::Done(Err(ErrorKind::InvalidInput)))
    } else if s.stage == Stage::Send {
        match event {
            EventView::Written => expect(s, Stage::Ack, ack_tries(s)),
            EventView::Failed(kind) => (idle(s), ActionView::Done(Err(kind))),
            EventView::Byte(_) => (idle(s), ActionView::Done(Err(ErrorKind::InvalidInput))),
        }
    } else {
        let (reading, step) = read_next(s, event);
        match step {
            ReadStepView::Read => (reading, ActionView::Read),
            ReadStepView::Write(bytes) => (reading, ActionView::Write(bytes)),
            ReadStepView::Done(result) => after_read(reading, result),
        }
    }
}

} // verus!
