//! The Powerlevel Command Class: the transmit power of a node, and tests of the
//! link between two nodes at a given power.
//!
//! The class is meant for installing and testing a network.

use super::{command, Message};
use crate::defs::CommandClass;
use crate::error::{Error, ErrorKind};
use vstd::prelude::*;

verus! {

/// The transmit power of a node: normal, or lowered by one to nine dBm.
#[derive(Copy, Clone, Debug, PartialEq, Eq, Structural)]
#[allow(non_camel_case_types)]
pub enum PowerLevelStatus {
    NormalPower,
    minus1dBm,
    minus2dBm,
    minus3dBm,
    minus4dBm,
    minus5dBm,
    minus6dBm,
    minus7dBm,
    minus8dBm,
    minus9dBm,
}

impl PowerLevelStatus {
    /// The byte that stands for the power level on the wire.
    pub open spec fn spec_as_byte(self) -> u8 {
        match self {
            PowerLevelStatus::NormalPower => 0x00,
            PowerLevelStatus::minus1dBm => 0x01,
            PowerLevelStatus::minus2dBm => 0x02,
            PowerLevelStatus::minus3dBm => 0x03,
            PowerLevelStatus::minus4dBm => 0x04,
            PowerLevelStatus::minus5dBm => 0x05,
            PowerLevelStatus::minus6dBm => 0x06,
            PowerLevelStatus::minus7dBm => 0x07,
            PowerLevelStatus::minus8dBm => 0x08,
            PowerLevelStatus::minus9dBm => 0x09,
        }
    }

    /// The power level that a byte stands for, if it stands for one.
    pub open spec fn spec_from_byte(byte: u8) -> Option<PowerLevelStatus> {
        match byte {
            0x00 => Some(PowerLevelStatus::NormalPower),
            0x01 => Some(PowerLevelStatus::minus1dBm),
            0x02 => Some(PowerLevelStatus::minus2dBm),
            0x03 => Some(PowerLevelStatus::minus3dBm),
            0x04 => Some(PowerLevelStatus::minus4dBm),
            0x05 => Some(PowerLevelStatus::minus5dBm),
            0x06 => Some(PowerLevelStatus::minus6dBm),
            0x07 => Some(PowerLevelStatus::minus7dBm),
            0x08 => Some(PowerLevelStatus::minus8dBm),
            0x09 => Some(PowerLevelStatus::minus9dBm),
            _ => None,
        }
    }

    /// Returns the byte that stands for the power level on the wire.
    #[verifier::when_used_as_spec(spec_as_byte)]
    pub fn as_byte(self) -> (byte: u8)
        ensures
            byte == self.spec_as_byte(),
    {
        match self {
            PowerLevelStatus::NormalPower => 0x00,
            PowerLevelStatus::minus1dBm => 0x01,
            PowerLevelStatus::minus2dBm => 0x02,
            PowerLevelStatus::minus3dBm => 0x03,
            PowerLevelStatus::minus4dBm => 0x04,
            PowerLevelStatus::minus5dBm => 0x05,
            PowerLevelStatus::minus6dBm => 0x06,
            PowerLevelStatus::minus7dBm => 0x07,
            PowerLevelStatus::minus8dBm => 0x08,
            PowerLevelStatus::minus9dBm => 0x09,
        }
    }

    /// Returns the power level that `byte` stands for, or `None` for any other byte.
    #[verifier::when_used_as_spec(spec_from_byte)]
    pub fn from_byte(byte: u8) -> (found: Option<PowerLevelStatus>)
        ensures
            found == Self::spec_from_byte(byte),
    {
        match byte {
            0x00 => Some(PowerLevelStatus::NormalPower),
            0x01 => Some(PowerLevelStatus::minus1dBm),
            0x02 => Some(PowerLevelStatus::minus2dBm),
            0x03 => Some(PowerLevelStatus::minus3dBm),
            0x04 => Some(PowerLevelStatus::minus4dBm),
            0x05 => Some(PowerLevelStatus::minus5dBm),
            0x06 => Some(PowerLevelStatus::minus6dBm),
            0x07 => Some(PowerLevelStatus::minus7dBm),
            0x08 => Some(PowerLevelStatus::minus8dBm),
            0x09 => Some(PowerLevelStatus::minus9dBm),
            _ => None,
        }
    }

    /// Every power level is found again from its byte.
    pub proof fn from_byte_of_as_byte(self)
        ensures
            Self::from_byte(self.as_byte()) == Some(self),
    {
    }

    /// A byte that stands for a power level is the byte of that power level.
    pub proof fn as_byte_of_from_byte(byte: u8)
        ensures
            Self::from_byte(byte) matches Some(found) ==> found.as_byte() == byte,
    {
    }
}

/// How a test of a link between two nodes went.
#[derive(Copy, Clone, Debug, PartialEq, Eq, Structural)]
pub enum PowerLevelOperationStatus {
    /// No frame was returned during the test.
    TestFailed,
    /// At least one frame was returned during the test.
    TestSuccess,
    /// The test is still going on.
    TestInProgress,
}

impl PowerLevelOperationStatus {
    /// The byte that stands for the status on the wire.
    pub open spec fn spec_as_byte(self) -> u8 {
        match self {
            PowerLevelOperationStatus::TestFailed => 0x00,
            PowerLevelOperationStatus::TestSuccess => 0x01,
            PowerLevelOperationStatus::TestInProgress => 0x02,
        }
    }

    /// The status that a byte stands for, if it stands for one.
    pub open spec fn spec_from_byte(byte: u8) -> Option<PowerLevelOperationStatus> {
        match byte {
            0x00 => Some(PowerLevelOperationStatus::TestFailed),
            0x01 => Some(PowerLevelOperationStatus::TestSuccess),
            0x02 => Some(PowerLevelOperationStatus::TestInProgress),
            _ => None,
        }
    }

    /// Returns the byte that stands for the status on the wire.
    #[verifier::when_used_as_spec(spec_as_byte)]
    pub fn as_byte(self) -> (byte: u8)
        ensures
            byte == self.spec_as_byte(),
    {
        match self {
            PowerLevelOperationStatus::TestFailed => 0x00,
            PowerLevelOperationStatus::TestSuccess => 0x01,
            PowerLevelOperationStatus::TestInProgress => 0x02,
        }
    }

    /// Returns the status that `byte` stands for, or `None` for any other byte.
    #[verifier::when_used_as_spec(spec_from_byte)]
    pub fn from_byte(byte: u8) -> (found: Option<PowerLevelOperationStatus>)
        ensures
            found == Self::spec_from_byte(byte),
    {
        match byte {
            0x00 => Some(PowerLevelOperationStatus::TestFailed),
            0x01 => Some(PowerLevelOperationStatus::TestSuccess),
            0x02 => Some(PowerLevelOperationStatus::TestInProgress),
            _ => None,
        }
    }

    /// Every status is found again from its byte.
    pub proof fn from_byte_of_as_byte(self)
        ensures
            Self::from_byte(self.as_byte()) == Some(self),
    {
    }

    /// A byte that stands for a status is the byte of that status.
    pub proof fn as_byte_of_from_byte(byte: u8)
        ensures
            Self::from_byte(byte) matches Some(found) ==> found.as_byte() == byte,
    {
    }
}

/// The Powerlevel Command Class.
#[derive(Debug, Clone, Copy)]
pub struct PowerLevel;

/// The number that two bytes hold, most significant byte first.
pub open spec fn join_bytes(msb: u8, lsb: u8) -> int {
    msb * 256 + lsb
}

/// The two bytes that hold a number, most significant byte first.
pub open spec fn split_bytes(x: u16) -> Seq<u8> {
    seq![(x / 256) as u8, (x % 256) as u8]
}

/// Whether `msg` is a Powerlevel report: seven bytes with the class and the
/// command of the report and a known power level.
pub open spec fn is_powerlevel_report(msg: Seq<u8>) -> bool {
    &&& msg.len() == 7
    &&& msg[3] == CommandClass::POWER_LEVEL.as_byte()
    &&& msg[4] == 0x03
    &&& PowerLevelStatus::from_byte(msg[5]) is Some
}

/// Whether `msg` is a Powerlevel test node report: nine bytes with the class and
/// the command of the report and a known status.
pub open spec fn is_test_node_report(msg: Seq<u8>) -> bool {
    &&& msg.len() == 9
    &&& msg[3] == CommandClass::POWER_LEVEL.as_byte()
    &&& msg[4] == 0x06
    &&& PowerLevelOperationStatus::from_byte(msg[6]) is Some
}

impl PowerLevel {
    /// The command that sets the transmit power of node `node_id` to `level` for
    /// `seconds` seconds.
    pub fn set(node_id: u8, level: PowerLevelStatus, seconds: u8) -> (message: Message)
        ensures
            message@ =~= command(
                node_id,
                CommandClass::POWER_LEVEL,
                0x01,
                seq![level.as_byte(), seconds],
            ),
    {
        Message::new(node_id, CommandClass::POWER_LEVEL, 0x01, vec![level.as_byte(), seconds])
    }

    /// The command that asks node `node_id` for its transmit power.
    pub fn get(node_id: u8) -> (message: Message)
        ensures
            message@ =~= command(node_id, CommandClass::POWER_LEVEL, 0x02, Seq::empty()),
    {
        Message::new(node_id, CommandClass::POWER_LEVEL, 0x02, Vec::new())
    }

    /// Reads a Powerlevel report: the power level, and the seconds left at it.
    pub fn report(msg: Vec<u8>) -> (state: Result<(PowerLevelStatus, u8), Error>)
        ensures
            match state {
                Ok((level, seconds)) => {
                    &&& is_powerlevel_report(msg@)
                    &&& PowerLevelStatus::from_byte(msg@[5]) == Some(level)
                    &&& seconds == msg@[6]
                },
                Err(e) => !is_powerlevel_report(msg@) && e.kind() == ErrorKind::UnknownZWave,
            },
    {
        if msg.len() != 7 {
            return Err(Error::new(ErrorKind::UnknownZWave, "Message is too short"));
        }
        if msg[3] != CommandClass::POWER_LEVEL.as_byte() || msg[4] != 0x03 {
            return Err(
                Error::new(ErrorKind::UnknownZWave, "Answer contained wrong command class"),
            );
        }
        let level = match PowerLevelStatus::from_byte(msg[5]) {
            Some(level) => level,
            None => {
                return Err(
                    Error::new(ErrorKind::UnknownZWave, "Answer contained wrong power level state"),
                );
            },
        };
        Ok((level, msg[6]))
    }

    /// The command that has node `node_id` send `test_frames` test frames to
    /// node `test_node_id` at the power `level`. The count travels in two bytes,
    /// most significant byte first.
    pub fn test_node_set(
        node_id: u8,
        test_node_id: u8,
        level: PowerLevelStatus,
        test_frames: u16,
    ) -> (message: Message)
        ensures
            message@ =~= command(
                node_id,
                CommandClass::POWER_LEVEL,
                0x04,
                seq![test_node_id, level.as_byte()] + split_bytes(test_frames),
            ),
    {
        let frames = PowerLevel::transform_u16_to_array_of_u8(test_frames);
        Message::new(
            node_id,
            CommandClass::POWER_LEVEL,
            0x04,
            vec![test_node_id, level.as_byte(), frames[0], frames[1]],
        )
    }

    /// The command that asks node `node_id` for the result of its last test.
    pub fn test_node_get(node_id: u8) -> (message: Message)
        ensures
            message@ =~= command(node_id, CommandClass::POWER_LEVEL, 0x05, Seq::empty()),
    {
        Message::new(node_id, CommandClass::POWER_LEVEL, 0x05, Vec::new())
    }

    /// Reads a Powerlevel test node report: the node that was tested against,
    /// how the test went, and the number of test frames that were acknowledged.
    pub fn test_node_report(msg: Vec<u8>) -> (result: Result<
        (u8, PowerLevelOperationStatus, u16),
        Error,
    >)
        ensures
            match result {
                Ok((test_node_id, status, frames)) => {
                    &&& is_test_node_report(msg@)
                    &&& test_node_id == msg@[5]
                    &&& PowerLevelOperationStatus::from_byte(msg@[6]) == Some(status)
                    &&& frames == join_bytes(msg@[7], msg@[8])
                },
                Err(e) => !is_test_node_report(msg@) && e.kind() == ErrorKind::UnknownZWave,
            },
    {
        if msg.len() != 9 {
            return Err(Error::new(ErrorKind::UnknownZWave, "Message is too short"));
        }
        if msg[3] != CommandClass::POWER_LEVEL.as_byte() || msg[4] != 0x06 {
            return Err(
                Error::new(ErrorKind::UnknownZWave, "Answer contained wrong command class"),
            );
        }
        let n_id = msg[5];
        let status = match PowerLevelOperationStatus::from_byte(msg[6]) {
            Some(status) => status,
            None => {
                return Err(
                    Error::new(ErrorKind::UnknownZWave, "Answer contained wrong operation status"),
                );
            },
        };
        let frame = PowerLevel::transform_array_of_u8_to_u16(msg[7], msg[8]);
        Ok((n_id, status, frame))
    }

    /// Splits a number into its two bytes, most significant byte first.
    pub fn transform_u16_to_array_of_u8(x: u16) -> (bytes: [u8; 2])
        ensures
            bytes@ == split_bytes(x),
    {
        assert((x >> 8) & 0xff == x / 256) by (bit_vector);
        assert(x & 0xff == x % 256) by (bit_vector);
        let b1: u8 = ((x >> 8) & 0xff) as u8;
        let b2: u8 = (x & 0xff) as u8;
        [b1, b2]
    }

    /// Joins two bytes into the number they hold, most significant byte first.
    pub fn transform_array_of_u8_to_u16(msb: u8, lsb: u8) -> (x: u16)
        ensures
            x == join_bytes(msb, lsb),
    {
        let msb = msb as u16;
        let lsb = lsb as u16;
        assert((msb << 8) | lsb == msb * 256 + lsb) by (bit_vector)
            requires
                msb < 256,
                lsb < 256,
        ;
        (msb << 8) | lsb
    }

    /// Joining the two bytes of a number gives the number back.
    pub proof fn join_of_split(x: u16)
        ensures
            join_bytes(split_bytes(x)[0], split_bytes(x)[1]) == x,
    {
    }

    /// Splitting the number that two bytes hold gives the two bytes back.
    pub proof fn split_of_join(msb: u8, lsb: u8)
        ensures
            split_bytes(join_bytes(msb, lsb) as u16) == seq![msb, lsb],
    {
    }
}

} // verus!
