//! What holds of the driver in every state: the laws of the state machine of
//! [`super::protocol`].

use super::protocol::{
    begin, idle, initial, is_partial, is_unsolicited, is_whole, lists_node, next, next_msg_id,
    node_ids_of, node_ids_up_to, read_next, send_data, DriverView, Stage, Task, Tries,
    MAX_NODE_ID,
};
use super::{ActionView, EventView, ReadStepView, ReplyView};
use crate::defs::encode;
use vstd::prelude::*;

verus! {

/// The states that the driver can be in.
///
/// * The bytes of the frame that is being read are the beginning of a frame.
/// * While a frame waits for its answer to be written, no bytes are held.
/// * With nothing in progress nothing is being read and nothing waits to be
///   written; the same holds while the frame of the operation is written.
/// * In every other stage a frame is being read; the drain reads only where
///   it has tries.
/// * The operation that hands out a queued frame never leaves the drain.
/// * The frame of a command carries the id after the last one.
/// * Every queued frame is a structured request.
pub open spec fn wf(s: DriverView) -> bool {
    &&& is_partial(s.buf)
    &&& s.pending is Some ==> s.buf.len() == 0
    &&& s.task == Task::Idle ==> s == idle(s)
    &&& s.stage == Stage::Send ==> s.tries == 0 && s.pending is None && s.buf.len() == 0
    &&& (s.task != Task::Idle && s.stage != Stage::Send) ==> s.tries > 0
    &&& (s.task != Task::Idle && s.stage == Stage::Drain) ==> s.limits.drain > 0
    &&& s.task == Task::Read ==> s.stage == Stage::Drain
    &&& s.task == Task::Write ==> exists|command: Seq<u8>|
        s.outgoing == encode(#[trigger] send_data(command, next_msg_id(s.message_id)))
    &&& forall|i: int| 0 <= i < s.messages.len() ==> is_unsolicited(#[trigger] s.messages[i])
}

/// What a step of the driver can do to the queue: leave it as it is, or put one
/// structured request at its end, or take off the oldest frame, and then the
/// operation ends with the payload of that frame.
pub open spec fn queue_step(before: DriverView, after: DriverView, action: ActionView) -> bool {
    ||| after.messages == before.messages
    ||| exists|frame| is_unsolicited(frame) && after.messages == before.messages.push(frame)
    ||| {
        &&& before.messages.len() > 0
        &&& after.messages == before.messages.skip(1)
        &&& action == ActionView::Done(Ok(ReplyView::Payload(before.messages[0].data)))
    }
}

/// What a step of the driver can do to the id of the last command: leave it as
/// it is, and then no command was sent; or advance it to the id after it, which
/// is not zero, and then the operation ends with the new id.
pub open spec fn id_step(before: DriverView, after: DriverView, action: ActionView) -> bool {
    ||| after.message_id == before.message_id && !(action matches ActionView::Done(
        Ok(ReplyView::MessageId(_)),
    ))
    ||| {
        &&& after.message_id == next_msg_id(before.message_id)
        &&& action == ActionView::Done(Ok(ReplyView::MessageId(after.message_id)))
        &&& after.message_id != 0
    }
}

/// The id after any id is not zero; it is one more, and one after 255.
pub proof fn message_id_is_never_zero(id: u8)
    ensures
        next_msg_id(id) != 0,
        id < 255 ==> next_msg_id(id) == id + 1,
        id == 255 ==> next_msg_id(id) == 1,
{
}

/// The beginning of a frame with one more byte is a whole frame or again the
/// beginning of one, never both; and a frame has at most 257 bytes.
pub proof fn partial_frame_grows(bytes: Seq<u8>, byte: u8)
    requires
        is_partial(bytes),
    ensures
        is_whole(bytes.push(byte)) != is_partial(bytes.push(byte)),
        bytes.len() <= 256,
{
}

/// A driver that has done nothing yet is in a state that it can be in.
pub proof fn initial_is_wf(limits: Tries)
    ensures
        wf(initial(limits)),
{
}

/// Every operation begins in a state that the driver can be in: a command with
/// the frame that carries it under the id after the last one, every other
/// operation with any frame. The beginning leaves the id and the tries, and
/// the queue but for the frame that it may hand out.
pub proof fn begin_keeps_wf(s: DriverView, task: Task, command: Seq<u8>, outgoing: Seq<u8>)
    requires
        wf(s),
        task != Task::Idle,
        task == Task::Write ==> outgoing == encode(send_data(command, next_msg_id(s.message_id))),
    ensures
        wf(begin(s, task, outgoing).0),
        begin(s, task, outgoing).0.message_id == s.message_id,
        begin(s, task, outgoing).0.limits == s.limits,
        queue_step(s, begin(s, task, outgoing).0, begin(s, task, outgoing).1),
{
    let after = begin(s, task, outgoing).0;
    if task == Task::Write {
        assert(after.outgoing == encode(send_data(command, next_msg_id(after.message_id))));
    }
    assert(forall|i: int|
        0 <= i < after.messages.len() ==> is_unsolicited(#[trigger] after.messages[i]));
}

/// Every event leaves the driver in a state that it can be in, and leaves its
/// tries as they are.
pub proof fn next_keeps_wf(s: DriverView, event: EventView)
    requires
        wf(s),
    ensures
        wf(next(s, event).0),
        next(s, event).0.limits == s.limits,
{
    let after = next(s, event).0;
    if s.task != Task::Idle && s.stage != Stage::Send {
        let (reading, step) = read_next(s, event);
        if let EventView::Byte(byte) = event {
            if s.pending is None {
                partial_frame_grows(s.buf, byte);
            }
        }
        if s.task == Task::Write && after.task == Task::Write {
            let command = choose|command: Seq<u8>|
                s.outgoing == encode(#[trigger] send_data(command, next_msg_id(s.message_id)));
            assert(after.outgoing == encode(send_data(command, next_msg_id(after.message_id))));
        }
        assert(forall|i: int|
            0 <= i < after.messages.len() ==> is_unsolicited(#[trigger] after.messages[i]));
    } else if s.task == Task::Write && after.task == Task::Write {
        let command = choose|command: Seq<u8>|
            s.outgoing == encode(#[trigger] send_data(command, next_msg_id(s.message_id)));
        assert(after.outgoing == encode(send_data(command, next_msg_id(after.message_id))));
    }
}

/// The queue is first in, first out, and loses nothing: an event leaves it as
/// it is, or puts one structured request at its end, or takes off the oldest
/// frame, and then the operation ends with the payload of that frame.
pub proof fn queue_is_fifo(s: DriverView, event: EventView)
    requires
        wf(s),
    ensures
        queue_step(s, next(s, event).0, next(s, event).1),
{
    let (after, action) = next(s, event);
    if s.task != Task::Idle && s.stage == Stage::Drain {
        let (reading, step) = read_next(s, event);
        if let ReadStepView::Done(Ok(frame)) = step {
            if is_unsolicited(frame) {
                assert(after.messages == s.messages.push(frame));
            }
        }
    }
}

/// The id of the last command advances only when a command was sent: then the
/// operation ends with the new id, which is the id after the last one. An
/// operation that fails leaves the id as it was.
pub proof fn id_advances_only_on_success(s: DriverView, event: EventView)
    ensures
        id_step(s, next(s, event).0, next(s, event).1),
{
}

/// The id that a sent command gives is the id that its frame carried.
pub proof fn sent_id_is_the_id_of_the_frame(s: DriverView, event: EventView, id: u8)
    requires
        wf(s),
        next(s, event).1 == ActionView::Done(Ok(ReplyView::MessageId(id))),
    ensures
        exists|command: Seq<u8>| s.outgoing == encode(#[trigger] send_data(command, id)),
{
    id_advances_only_on_success(s, event);
    assert(id == next_msg_id(s.message_id));
    assert(s.task == Task::Write);
    let command = choose|command: Seq<u8>|
        s.outgoing == encode(#[trigger] send_data(command, next_msg_id(s.message_id)));
    assert(s.outgoing == encode(send_data(command, id)));
}

/// An operation that ends leaves nothing in progress.
pub proof fn done_is_idle(s: DriverView, event: EventView)
    requires
        next(s, event).1 is Done,
        s.task != Task::Idle,
    ensures
        next(s, event).0 == idle(next(s, event).0),
        next(s, event).0.task == Task::Idle,
{
}

/// The ids up to a limit that a payload lists are exactly those: each of them
/// is listed and is at most the limit, each id up to the limit that is listed is
/// among them, and they rise.
pub proof fn node_ids_up_to_are_the_listed(data: Seq<u8>, limit: nat)
    requires
        limit <= MAX_NODE_ID,
    ensures
        forall|k: int|
            0 <= k < node_ids_up_to(data, limit).len() ==> {
                &&& 1 <= #[trigger] node_ids_up_to(data, limit)[k] <= limit
                &&& lists_node(data, node_ids_up_to(data, limit)[k] as int)
            },
        forall|id: int|
            1 <= id <= limit && lists_node(data, id) ==> #[trigger] node_ids_up_to(
                data,
                limit,
            ).contains(id as u8),
        forall|k: int, l: int|
            0 <= k < l < node_ids_up_to(data, limit).len() ==> #[trigger] node_ids_up_to(
                data,
                limit,
            )[k] < #[trigger] node_ids_up_to(data, limit)[l],
    decreases limit,
{
    if limit > 0 {
        let below = node_ids_up_to(data, (limit - 1) as nat);
        let ids = node_ids_up_to(data, limit);
        node_ids_up_to_are_the_listed(data, (limit - 1) as nat);
        assert forall|id: int| 1 <= id <= limit && lists_node(data, id) implies ids.contains(
            id as u8,
        ) by {
            if id < limit {
                assert(below.contains(id as u8));
                let k = choose|k: int| 0 <= k < below.len() && below[k] == id as u8;
                assert(ids[k] == id as u8);
            } else {
                assert(ids[ids.len() - 1] == id as u8);
            }
        }
    }
}

/// The list of nodes that a payload gives holds exactly the ids from 1 to 232
/// that the payload lists, in rising order.
pub proof fn node_ids_are_the_listed(data: Seq<u8>)
    ensures
        forall|id: u8| #[trigger] node_ids_of(data).contains(id) <==> lists_node(data, id as int),
        forall|k: int, l: int|
            0 <= k < l < node_ids_of(data).len() ==> #[trigger] node_ids_of(data)[k]
                < #[trigger] node_ids_of(data)[l],
{
    node_ids_up_to_are_the_listed(data, MAX_NODE_ID as nat);
    let ids = node_ids_of(data);
    assert forall|id: u8| #[trigger] ids.contains(id) implies lists_node(data, id as int) by {
        let k = choose|k: int| 0 <= k < ids.len() && ids[k] == id;
        assert(lists_node(data, ids[k] as int));
    }
    assert forall|id: u8| lists_node(data, id as int) implies #[trigger] ids.contains(id) by {
        assert(node_ids_up_to(data, MAX_NODE_ID as nat).contains((id as int) as u8));
    }
}

} // verus!
