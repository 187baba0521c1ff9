//! The Multilevel Switch Command Class: devices with a level, such as dimmers.

use super::{command, Message};
use crate::defs::CommandClass;
use crate::error::{Error, ErrorKind};
use vstd::prelude::*;

verus! {

/// The Multilevel Switch Command Class.
#[derive(Debug, Clone, Copy)]
pub struct SwitchMultilevel;

/// The level that a Multilevel Switch report holds: the sixth byte, behind the
/// class and the command of the report. Bytes after it are passed over.
pub open spec fn switch_multilevel_report(msg: Seq<u8>) -> Option<u8> {
    if msg.len() >= 6 && msg[3] == CommandClass::SWITCH_MULTILEVEL.as_byte() && msg[4] == 0x03 {
        Some(msg[5])
    } else {
        None
    }
}

impl SwitchMultilevel {
    /// The command that sets the level of node `node_id`.
    pub fn set(node_id: u8, value: u8) -> (message: Message)
        ensures
            message@ =~= command(node_id, CommandClass::SWITCH_MULTILEVEL, 0x01, seq![value]),
    {
        Message::new(node_id, CommandClass::SWITCH_MULTILEVEL, 0x01, vec![value])
    }

    /// The command that asks node `node_id` for its level.
    pub fn get(node_id: u8) -> (message: Message)
        ensures
            message@ =~= command(node_id, CommandClass::SWITCH_MULTILEVEL, 0x02, Seq::empty()),
    {
        Message::new(node_id, CommandClass::SWITCH_MULTILEVEL, 0x02, Vec::new())
    }

    /// Reads the level out of a Multilevel Switch report.
    pub fn report(msg: Vec<u8>) -> (level: Result<u8, Error>)
        ensures
            match level {
                Ok(v) => switch_multilevel_report(msg@) == Some(v),
                Err(e) => switch_multilevel_report(msg@) is None && e.kind()
                    == ErrorKind::UnknownZWave,
            },
    {
        if msg.len() < 6 {
            return Err(Error::new(ErrorKind::UnknownZWave, "Message is too short"));
        }
        if msg[3] != CommandClass::SWITCH_MULTILEVEL.as_byte() || msg[4] != 0x03 {
            return Err(
                Error::new(ErrorKind::UnknownZWave, "Answer contained wrong command class"),
            );
        }
        let val = msg[5];
        Ok(val)
    }
}

} // verus!
