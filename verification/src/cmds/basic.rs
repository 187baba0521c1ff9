//! The Basic Command Class: one value per node, whatever the node makes of it.

use super::{command, Message};
use crate::defs::CommandClass;
use crate::error::{Error, ErrorKind};
use vstd::prelude::*;

verus! {

/// The Basic Command Class.
#[derive(Debug, Clone, Copy)]
pub struct Basic;

/// The value that a Basic report holds: the sixth of six bytes, behind the
/// class and the command of the report.
pub open spec fn basic_report(msg: Seq<u8>) -> Option<u8> {
    if msg.len() == 6 && msg[3] == CommandClass::BASIC.as_byte() && msg[4] == 0x03 {
        Some(msg[5])
    } else {
        None
    }
}

impl Basic {
    /// The command that sets the value of node `node_id`.
    pub fn set(node_id: u8, value: u8) -> (message: Message)
        ensures
            message@ =~= command(node_id, CommandClass::BASIC, 0x01, seq![value]),
    {
        Message::new(node_id, CommandClass::BASIC, 0x01, vec![value])
    }

    /// The command that asks node `node_id` for its value.
    pub fn get(node_id: u8) -> (message: Message)
        ensures
            message@ =~= command(node_id, CommandClass::BASIC, 0x02, Seq::empty()),
    {
        Message::new(node_id, CommandClass::BASIC, 0x02, Vec::new())
    }

    /// Reads the value out of a Basic report.
    pub fn report(msg: Vec<u8>) -> (value: Result<u8, Error>)
        ensures
            match value {
                Ok(v) => basic_report(msg@) == Some(v),
                Err(e) => basic_report(msg@) is None && e.kind() == ErrorKind::UnknownZWave,
            },
    {
        if msg.len() != 6 {
            return Err(Error::new(ErrorKind::UnknownZWave, "Message is too short"));
        }
        if msg[3] != CommandClass::BASIC.as_byte() || msg[4] != 0x03 {
            return Err(
                Error::new(ErrorKind::UnknownZWave, "Answer contained wrong command class"),
            );
        }
        Ok(msg[5])
    }
}

} // verus!
