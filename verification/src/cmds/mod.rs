//! The Command Class codecs.
//!
//! Each codec builds the [`Message`] of a command and reads the payload of a
//! report back into a value. A codec keeps no state.
//!
//! A command travels as
//!
//! ```text
//! NODE LEN CLASS COMMAND DATA..
//! ```
//!
//! where `LEN` counts the bytes after it. A report arrives as the payload of a
//! frame: three bytes of the controller (a status, the node, a length), then
//! the class, the command and the data of the report.

pub mod basic;
pub mod info;
pub mod meter;
pub mod powerlevel;
pub mod switch_binary;
pub mod switch_multilevel;

pub use crate::defs::CommandClass;

use crate::error::{Error, ErrorKind};
use crate::hex::{hex_of, to_hex_string};
use vstd::prelude::*;
use vstd::slice::slice_subrange;
use vstd::slice::slice_to_vec;

verus! {

/// A command for one node: a class, a command of that class and its data.
#[derive(Debug, PartialEq, Eq)]
pub struct Message {
    pub node_id: u8,
    pub cmd_class: CommandClass,
    pub cmd: u8,
    pub data: Vec<u8>,
}

/// What a command holds: the model that the contracts speak of.
#[verifier::ext_equal]
pub struct MessageView {
    pub node_id: u8,
    pub cmd_class: CommandClass,
    pub cmd: u8,
    pub data: Seq<u8>,
}

impl View for Message {
    type V = MessageView;

    open spec fn view(&self) -> MessageView {
        MessageView {
            node_id: self.node_id,
            cmd_class: self.cmd_class,
            cmd: self.cmd,
            data: self.data@,
        }
    }
}

impl Clone for Message {
    fn clone(&self) -> (copy: Message)
        ensures
            copy@ == self@,
    {
        Message {
            node_id: self.node_id,
            cmd_class: self.cmd_class,
            cmd: self.cmd,
            data: self.data.clone(),
        }
    }
}

/// The command of the given parts.
pub open spec fn command(node_id: u8, cmd_class: CommandClass, cmd: u8, data: Seq<u8>) -> MessageView {
    MessageView { node_id, cmd_class, cmd, data }
}

/// The bytes that a command travels as.
pub open spec fn message_bytes(message: MessageView) -> Seq<u8> {
    seq![
        message.node_id,
        ((message.data.len() + 2) % 256) as u8,
        message.cmd_class.as_byte(),
        message.cmd,
    ] + message.data
}

/// The command that `bytes` are read as, `None` where they are no command.
pub open spec fn parse_message(bytes: Seq<u8>) -> Option<MessageView> {
    if bytes.len() < 4 || bytes[1] != bytes.len() - 2 {
        None
    } else {
        match CommandClass::from_byte(bytes[2]) {
            None => None,
            Some(cmd_class) => Some(
                MessageView { node_id: bytes[0], cmd_class, cmd: bytes[3], data: bytes.skip(4) },
            ),
        }
    }
}

impl Message {
    /// Creates a command.
    pub fn new(node_id: u8, cmd_class: CommandClass, cmd: u8, data: Vec<u8>) -> (message: Message)
        ensures
            message@ == command(node_id, cmd_class, cmd, data@),
    {
        Message { node_id, cmd_class, cmd, data }
    }

    /// Reads `data` as a command.
    ///
    /// The bytes are a command where there are at least four of them, the
    /// second counts those after it, and the third is a known class. Everything
    /// else is refused as `UnknownZWave`.
    pub fn parse(data: &[u8]) -> (parsed: Result<Message, Error>)
        ensures
            match parsed {
                Ok(message) => parse_message(data@) == Some(message@),
                Err(e) => parse_message(data@) is None && e.kind() == ErrorKind::UnknownZWave,
            },
    {
        if data.len() < 1 {
            return Err(Error::new(ErrorKind::UnknownZWave, "Message has no data"));
        }
        if data.len() < 4 {
            return Err(Error::new(ErrorKind::UnknownZWave, "Message is to short"));
        }
        if data.len() - 2 != data[1] as usize {
            return Err(
                Error::new(
                    ErrorKind::UnknownZWave,
                    "The length of the message delivered didn't match with the actual length",
                ),
            );
        }
        let cmd_class = match CommandClass::from_byte(data[2]) {
            Some(cmd_class) => cmd_class,
            None => {
                return Err(
                    Error::new(ErrorKind::UnknownZWave, "The ZWave Command Class is unknown"),
                );
            },
        };
        let rest = slice_to_vec(slice_subrange(data, 4, data.len()));
        Ok(Message::new(data[0], cmd_class, data[3], rest))
    }

    /// Returns the bytes that the command travels as.
    ///
    /// The length byte holds the length of the data plus two, cut to eight
    /// bits: data of more than 253 bytes give bytes that `parse` refuses.
    pub fn to_vec(&self) -> (bytes: Vec<u8>)
        ensures
            bytes@ == message_bytes(self@),
    {
        let length: usize = (self.data.len() % 256 + 2) % 256;
        let mut v: Vec<u8> = vec![self.node_id, length as u8, self.cmd_class.as_byte(), self.cmd];
        v.extend_from_slice(self.data.as_slice());
        proof {
            assert(length == (self.data@.len() + 2) % 256);
            assert(v@ == message_bytes(self@));
        }
        v
    }

    /// Returns the bytes of the command as text, each byte as `0x` and its
    /// upper-case hexadecimal digits, followed by a space.
    pub fn to_hex_string(&self) -> (text: String)
        ensures
            text@ == hex_of(message_bytes(self@)),
    {
        let data = self.to_vec();
        to_hex_string(data.as_slice())
    }
}

/// Reading the bytes of a command gives the command back: for every node,
/// class and command, and data of at most 253 bytes.
pub proof fn parse_of_to_vec(message: MessageView)
    requires
        message.data.len() <= 253,
    ensures
        parse_message(message_bytes(message)) == Some(message),
{
    let bytes = message_bytes(message);
    message.cmd_class.from_byte_of_as_byte();
    assert(bytes.skip(4) == message.data);
}

} // verus!
