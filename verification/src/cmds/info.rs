//! The node information of a node: its generic types and the Command Classes
//! that it supports.

use super::{command, Message};
use crate::defs::{CommandClass, GenericType};
use crate::error::{Error, ErrorKind};
use vstd::prelude::*;

verus! {

/// The node information exchange.
#[derive(Debug, Clone, Copy)]
pub struct NodeInfo;

/// The generic types that `bytes` name, in their order: bytes that name no type,
/// or the type `Unknown`, are passed over.
pub open spec fn known_types(bytes: Seq<u8>) -> Seq<GenericType>
    decreases bytes.len(),
{
    if bytes.len() == 0 {
        Seq::empty()
    } else {
        let before = known_types(bytes.drop_last());
        match GenericType::from_byte(bytes.last()) {
            Some(typ) if typ != GenericType::Unknown => before.push(typ),
            _ => before,
        }
    }
}

/// The Command Classes that `bytes` name, in their order: bytes that name no
/// class, or the class `NO_OPERATION`, are passed over.
pub open spec fn known_classes(bytes: Seq<u8>) -> Seq<CommandClass>
    decreases bytes.len(),
{
    if bytes.len() == 0 {
        Seq::empty()
    } else {
        let before = known_classes(bytes.drop_last());
        match CommandClass::from_byte(bytes.last()) {
            Some(class) if class != CommandClass::NO_OPERATION => before.push(class),
            _ => before,
        }
    }
}

/// The node information that the report `msg` holds: the generic types that
/// the bytes at the indices two to five name, and the Command Classes that the
/// bytes from the index six on name. A report of less than six bytes holds
/// none.
pub open spec fn node_info_of(msg: Seq<u8>) -> Option<(Seq<GenericType>, Seq<CommandClass>)> {
    if msg.len() >= 6 {
        Some((known_types(msg.subrange(2, 6)), known_classes(msg.skip(6))))
    } else {
        None
    }
}

impl NodeInfo {
    /// The command that asks node `node_id` for its node information.
    pub fn get(node_id: u8) -> (message: Message)
        ensures
            message@ =~= command(node_id, CommandClass::REQUEST_NODE_INFO, 0x02, Seq::empty()),
    {
        Message::new(node_id, CommandClass::REQUEST_NODE_INFO, 0x02, Vec::new())
    }

    /// Reads a node information report: the generic types that the bytes at the
    /// indices two to five name, and the Command Classes that the bytes from the
    /// index six on name.
    ///
    /// A report of less than six bytes is refused as `UnknownZWave`.
    pub fn report(msg: Vec<u8>) -> (info: Result<(Vec<GenericType>, Vec<CommandClass>), Error>)
        ensures
            match info {
                Ok((types, classes)) => node_info_of(msg@) == Some((types@, classes@)),
                Err(e) => node_info_of(msg@) is None && e.kind() == ErrorKind::UnknownZWave,
            },
    {
        if msg.len() < 6 {
            return Err(Error::new(ErrorKind::UnknownZWave, "Message is to short"));
        }
        let mut types: Vec<GenericType> = Vec::new();
        let mut cmds: Vec<CommandClass> = Vec::new();
        let mut i: usize = 2;
        while i < 6
            invariant
                2 <= i <= 6 <= msg@.len(),
                types@ == known_types(msg@.subrange(2, i as int)),
            decreases 6 - i,
        {
            assert(msg@.subrange(2, i + 1).drop_last() == msg@.subrange(2, i as int));
            match GenericType::from_byte(msg[i]) {
                Some(typ) => {
                    if typ != GenericType::Unknown {
                        types.push(typ);
                    }
                },
                None => {},
            }
            i = i + 1;
        }
        while i < msg.len()
            invariant
                6 <= i <= msg@.len(),
                cmds@ == known_classes(msg@.subrange(6, i as int)),
            decreases msg.len() - i,
        {
            assert(msg@.subrange(6, i + 1).drop_last() == msg@.subrange(6, i as int));
            match CommandClass::from_byte(msg[i]) {
                Some(class) => {
                    if class != CommandClass::NO_OPERATION {
                        cmds.push(class);
                    }
                },
                None => {},
            }
            i = i + 1;
        }
        assert(msg@.subrange(6, i as int) == msg@.skip(6));
        Ok((types, cmds))
    }
}

} // verus!
