//! The driver: the bottom layer, which speaks to the Z-Wave controller.
//!
//! [`Driver`] is what the layers above ask of a driver. [`serial::SerialDriver`]
//! is the driver of a controller behind a serial link. It never touches the
//! link itself: it says what to do with it next (an [`Action`]) and is told
//! what came of that (an [`Event`]). Whoever owns the byte stream runs the loop.

pub mod laws;
pub mod protocol;
pub mod serial;


pub use crate::defs::GenericType;
pub use serial::SerialDriver;


use crate::defs::{SerialMessage, SerialMessageView};
use crate::error::{Error, ErrorKind};
use vstd::prelude::*;

verus! {

/// What every driver offers: access to the Z-Wave network.
pub trait Driver {
    /// Sends a command to the network and returns the id that it was sent under.
    fn write(&mut self, message: Vec<u8>) -> Result<u8, Error>;

    /// Returns the payload of the oldest frame that the network has sent on its
    /// own.
    fn read(&mut self) -> Result<Vec<u8>, Error>;

    /// Returns the ids of the nodes of the network.
    fn get_node_ids(&mut self) -> Result<Vec<u8>, Error>;

    /// Returns the generic type of a node.
    fn get_node_generic_class(&mut self, node_id: u8) -> Result<GenericType, Error>;
}

/// What came of the last thing that the driver asked of the byte stream.
#[derive(Debug)]
pub enum Event {
    /// The byte that was read.
    Byte(u8),
    /// The bytes were written.
    Written,
    /// The read or the write failed. A read that found no byte within the read
    /// timeout fails as `Io(TimedOut)`.
    Failed(Error),
}

/// What an operation of the driver gives when it succeeds.
#[derive(Debug, PartialEq, Eq)]
pub enum Reply {
    /// The id under which a command was sent.
    MessageId(u8),
    /// The payload of a frame that the network sent on its own.
    Payload(Vec<u8>),
    /// The ids of the nodes of the network, in rising order.
    NodeIds(Vec<u8>),
    /// The generic type of a node.
    GenericClass(GenericType),
}

/// What the driver asks of the byte stream next, or the end of the operation.
#[derive(Debug)]
pub enum Action {
    /// Read one byte, and wait for it no longer than the read timeout.
    Read,
    /// Write these bytes.
    Write(Vec<u8>),
    /// The operation is over, and this is what it gives.
    Done(Result<Reply, Error>),
}

/// What the driver asks of the byte stream while it reads one frame, or the
/// frame.
#[derive(Debug)]
pub enum ReadStep {
    /// Read one byte, and wait for it no longer than the read timeout.
    Read,
    /// Write these bytes: the answer to the frame that was just read.
    Write(Vec<u8>),
    /// The read is over: this is the frame, or why there is none.
    Done(Result<SerialMessage, Error>),
}

/// An [`Event`] as the contracts speak of it: an error counts by its kind.
pub enum EventView {
    Byte(u8),
    Written,
    Failed(ErrorKind),
}

/// A [`Reply`] as the contracts speak of it.
#[verifier::ext_equal]
pub enum ReplyView {
    MessageId(u8),
    Payload(Seq<u8>),
    NodeIds(Seq<u8>),
    GenericClass(GenericType),
}

/// An [`Action`] as the contracts speak of it: an error counts by its kind.
#[verifier::ext_equal]
pub enum ActionView {
    Read,
    Write(Seq<u8>),
    Done(Result<ReplyView, ErrorKind>),
}

/// A [`ReadStep`] as the contracts speak of it: an error counts by its kind.
#[verifier::ext_equal]
pub enum ReadStepView {
    Read,
    Write(Seq<u8>),
    Done(Result<SerialMessageView, ErrorKind>),
}

/// A frame or an error as the contracts speak of them.
pub open spec fn frame_result_view(result: Result<SerialMessage, Error>) -> Result<
    SerialMessageView,
    ErrorKind,
> {
    match result {
        Ok(frame) => Ok(frame@),
        Err(e) => Err(e.kind()),
    }
}

impl View for Event {
    type V = EventView;

    open spec fn view(&self) -> EventView {
        match *self {
            Event::Byte(byte) => EventView::Byte(byte),
            Event::Written => EventView::Written,
            Event::Failed(e) => EventView::Failed(e.kind()),
        }
    }
}

impl View for Reply {
    type V = ReplyView;

    open spec fn view(&self) -> ReplyView {
        match *self {
            Reply::MessageId(id) => ReplyView::MessageId(id),
            Reply::Payload(payload) => ReplyView::Payload(payload@),
            Reply::NodeIds(ids) => ReplyView::NodeIds(ids@),
            Reply::GenericClass(typ) => ReplyView::GenericClass(typ),
        }
    }
}

impl View for Action {
    type V = ActionView;

    open spec fn view(&self) -> ActionView {
        match *self {
            Action::Read => ActionView::Read,
            Action::Write(bytes) => ActionView::Write(bytes@),
            Action::Done(Ok(reply)) => ActionView::Done(Ok(reply@)),
            Action::Done(Err(e)) => ActionView::Done(Err(e.kind())),
        }
    }
}

impl View for ReadStep {
    type V = ReadStepView;

    open spec fn view(&self) -> ReadStepView {
        match *self {
            ReadStep::Read => ReadStepView::Read,
            ReadStep::Write(bytes) => ReadStepView::Write(bytes@),
            ReadStep::Done(result) => ReadStepView::Done(frame_result_view(result)),
        }
    }
}

} // verus!
