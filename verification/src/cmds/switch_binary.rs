//! The Binary Switch Command Class: devices that are on or off.

use super::{command, Message};
use crate::defs::CommandClass;
use crate::error::{Error, ErrorKind};
use vstd::prelude::*;

verus! {

/// The Binary Switch Command Class.
#[derive(Debug, Clone, Copy)]
pub struct SwitchBinary;

/// The byte that stands for on or off in a command: `0xFF` for on, `0x00` for off.
pub open spec fn switch_byte(value: bool) -> u8 {
    if value {
        0xFF
    } else {
        0x00
    }
}

/// The state that a Binary Switch report holds: on where the sixth of six bytes
/// is `0xFF`, off for every other byte.
pub open spec fn switch_binary_report(msg: Seq<u8>) -> Option<bool> {
    if msg.len() == 6 && msg[3] == CommandClass::SWITCH_BINARY.as_byte() && msg[4] == 0x03 {
        Some(msg[5] == 0xFF)
    } else {
        None
    }
}

impl SwitchBinary {
    /// The command that switches node `node_id` on or off.
    pub fn set(node_id: u8, value: bool) -> (message: Message)
        ensures
            message@ =~= command(
                node_id,
                CommandClass::SWITCH_BINARY,
                0x01,
                seq![switch_byte(value)],
            ),
    {
        let value: u8 = if value {
            0xFF
        } else {
            0x00
        };
        Message::new(node_id, CommandClass::SWITCH_BINARY, 0x01, vec![value])
    }

    /// The command that asks node `node_id` whether it is on.
    pub fn get(node_id: u8) -> (message: Message)
        ensures
            message@ =~= command(node_id, CommandClass::SWITCH_BINARY, 0x02, Seq::empty()),
    {
        Message::new(node_id, CommandClass::SWITCH_BINARY, 0x02, Vec::new())
    }

    /// Reads the state out of a Binary Switch report.
    pub fn report(msg: Vec<u8>) -> (state: Result<bool, Error>)
        ensures
            match state {
                Ok(on) => switch_binary_report(msg@) == Some(on),
                Err(e) => switch_binary_report(msg@) is None && e.kind()
                    == ErrorKind::UnknownZWave,
            },
    {
        if msg.len() != 6 {
            return Err(Error::new(ErrorKind::UnknownZWave, "Message is to short"));
        }
        if msg[3] != CommandClass::SWITCH_BINARY.as_byte() || msg[4] != 0x03 {
            return Err(
                Error::new(ErrorKind::UnknownZWave, "Answer contained wrong command class"),
            );
        }
        let val = if msg[5] < 0xFF {
            false
        } else {
            true
        };
        Ok(val)
    }
}

} // verus!
