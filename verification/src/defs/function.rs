//! The functions of the serial API.

use vstd::prelude::*;

verus! {

/// The function of a frame: what the host asks of the controller, or what the
/// controller reports.
#[derive(Copy, Clone, Debug, PartialEq, Eq, Structural)]
pub enum SerialMessageFunction {
    NoFunction,
    DiscoveryNodes,
    SerialApiApplNodeInformation,
    ApplicationCommandHandler,
    GetControllerCapabilities,
    SerialApiSetTimeouts,
    SerialGetCapabilities,
    SerialApiSoftReset,
    SetRFReceiveMode,
    SetSleepMode,
    SendNodeInformation,
    SendData,
    SendDataMulti,
    GetVersion,
    SendDataAbort,
    RFPowerLevelSet,
    SendDataMeta,
    MemoryGetId,
    MemoryGetByte,
    MemoryPutByte,
    MemoryGetBuffer,
    MemoryPutBuffer,
    ClockSet,
    ClockGet,
    ClockCompare,
    RtcTimerCreate,
    RtcTimerRead,
    RtcTimerDelete,
    RtcTimerCall,
    GetNodeProtocolInfo,
    SetDefault,
    ReplicationCommandComplete,
    ReplicationSendData,
    AssignReturnRoute,
    DeleteReturnRoute,
    RequestNodeNeighborUpdate,
    ApplicationUpdate,
    AddNodeToNetwork,
    RemoveNodeFromNetwork,
    CreateNewPrimary,
    ControllerChange,
    SetLearnMode,
    AssignSucReturnRoute,
    EnableSuc,
    RequestNetworkUpdate,
    SetSucNodeId,
    DeleteSucReturnRoute,
    GetSucNodeId,
    SendSucId,
    RediscoveryNeeded,
    RequestNodeInfo,
    RemoveFailedNodeId,
    IsFailedNode,
    ReplaceFailedNode,
    TimerStart,
    TimerRestart,
    TimerCancel,
    TimerCall,
    GetRoutingTableLine,
    GetTXCounter,
    ResetTXCounter,
    StoreNodeInfo,
    StoreHomeId,
    LockRouteResponse,
    SendDataRouteDemo,
    SerialApiTest,
    SerialApiSlaveNodeInfo,
    ApplicationSlaveCommandHandler,
    SendSlaveNodeInfo,
    SendSlaveData,
    SetSlaveLearnMode,
    GetVirtualNodes,
    IsVirtualNode,
    SetPromiscuousMode,
}

impl SerialMessageFunction {
    /// The byte that stands for the function on the wire.
    pub open spec fn spec_as_byte(self) -> u8 {
        match self {
            SerialMessageFunction::NoFunction => 0x00,
            SerialMessageFunction::DiscoveryNodes => 0x02,
            SerialMessageFunction::SerialApiApplNodeInformation => 0x03,
            SerialMessageFunction::ApplicationCommandHandler => 0x04,
            SerialMessageFunction::GetControllerCapabilities => 0x05,
            SerialMessageFunction::SerialApiSetTimeouts => 0x06,
            SerialMessageFunction::SerialGetCapabilities => 0x07,
            SerialMessageFunction::SerialApiSoftReset => 0x08,
            SerialMessageFunction::SetRFReceiveMode => 0x10,
            SerialMessageFunction::SetSleepMode => 0x11,
            SerialMessageFunction::SendNodeInformation => 0x12,
            SerialMessageFunction::SendData => 0x13,
            SerialMessageFunction::SendDataMulti => 0x14,
            SerialMessageFunction::GetVersion => 0x15,
            SerialMessageFunction::SendDataAbort => 0x16,
            SerialMessageFunction::RFPowerLevelSet => 0x17,
            SerialMessageFunction::SendDataMeta => 0x18,
            SerialMessageFunction::MemoryGetId => 0x20,
            SerialMessageFunction::MemoryGetByte => 0x21,
            SerialMessageFunction::MemoryPutByte => 0x22,
            SerialMessageFunction::MemoryGetBuffer => 0x23,
            SerialMessageFunction::MemoryPutBuffer => 0x24,
            SerialMessageFunction::ClockSet => 0x30,
            SerialMessageFunction::ClockGet => 0x31,
            SerialMessageFunction::ClockCompare => 0x32,
            SerialMessageFunction::RtcTimerCreate => 0x33,
            SerialMessageFunction::RtcTimerRead => 0x34,
            SerialMessageFunction::RtcTimerDelete => 0x35,
            SerialMessageFunction::RtcTimerCall => 0x36,
            SerialMessageFunction::GetNodeProtocolInfo => 0x41,
            SerialMessageFunction::SetDefault => 0x42,
            SerialMessageFunction::ReplicationCommandComplete => 0x44,
            SerialMessageFunction::ReplicationSendData => 0x45,
            SerialMessageFunction::AssignReturnRoute => 0x46,
            SerialMessageFunction::DeleteReturnRoute => 0x47,
            SerialMessageFunction::RequestNodeNeighborUpdate => 0x48,
            SerialMessageFunction::ApplicationUpdate => 0x49,
            SerialMessageFunction::AddNodeToNetwork => 0x4A,
            SerialMessageFunction::RemoveNodeFromNetwork => 0x4B,
            SerialMessageFunction::CreateNewPrimary => 0x4C,
            SerialMessageFunction::ControllerChange => 0x4D,
            SerialMessageFunction::SetLearnMode => 0x50,
            SerialMessageFunction::AssignSucReturnRoute => 0x51,
            SerialMessageFunction::EnableSuc => 0x52,
            SerialMessageFunction::RequestNetworkUpdate => 0x53,
            SerialMessageFunction::SetSucNodeId => 0x54,
            SerialMessageFunction::DeleteSucReturnRoute => 0x55,
            SerialMessageFunction::GetSucNodeId => 0x56,
            SerialMessageFunction::SendSucId => 0x57,
            SerialMessageFunction::RediscoveryNeeded => 0x59,
            SerialMessageFunction::RequestNodeInfo => 0x60,
            SerialMessageFunction::RemoveFailedNodeId => 0x61,
            SerialMessageFunction::IsFailedNode => 0x62,
            SerialMessageFunction::ReplaceFailedNode => 0x63,
            SerialMessageFunction::TimerStart => 0x70,
            SerialMessageFunction::TimerRestart => 0x71,
            SerialMessageFunction::TimerCancel => 0x72,
            SerialMessageFunction::TimerCall => 0x73,
            SerialMessageFunction::GetRoutingTableLine => 0x80,
            SerialMessageFunction::GetTXCounter => 0x81,
            SerialMessageFunction::ResetTXCounter => 0x82,
            SerialMessageFunction::StoreNodeInfo => 0x83,
            SerialMessageFunction::StoreHomeId => 0x84,
            SerialMessageFunction::LockRouteResponse => 0x90,
            SerialMessageFunction::SendDataRouteDemo => 0x91,
            SerialMessageFunction::SerialApiTest => 0x95,
            SerialMessageFunction::SerialApiSlaveNodeInfo => 0xA0,
            SerialMessageFunction::ApplicationSlaveCommandHandler => 0xA1,
            SerialMessageFunction::SendSlaveNodeInfo => 0xA2,
            SerialMessageFunction::SendSlaveData => 0xA3,
            SerialMessageFunction::SetSlaveLearnMode => 0xA4,
            SerialMessageFunction::GetVirtualNodes => 0xA5,
            SerialMessageFunction::IsVirtualNode => 0xA6,
            SerialMessageFunction::SetPromiscuousMode => 0xD0,
        }
    }

    /// The function that a byte stands for, if it stands for one.
    pub open spec fn spec_from_byte(byte: u8) -> Option<SerialMessageFunction> {
        match byte {
            0x00 => Some(SerialMessageFunction::NoFunction),
            0x02 => Some(SerialMessageFunction::DiscoveryNodes),
            0x03 => Some(SerialMessageFunction::SerialApiApplNodeInformation),
            0x04 => Some(SerialMessageFunction::ApplicationCommandHandler),
            0x05 => Some(SerialMessageFunction::GetControllerCapabilities),
            0x06 => Some(SerialMessageFunction::SerialApiSetTimeouts),
            0x07 => Some(SerialMessageFunction::SerialGetCapabilities),
            0x08 => Some(SerialMessageFunction::SerialApiSoftReset),
            0x10 => Some(SerialMessageFunction::SetRFReceiveMode),
            0x11 => Some(SerialMessageFunction::SetSleepMode),
            0x12 => Some(SerialMessageFunction::SendNodeInformation),
            0x13 => Some(SerialMessageFunction::SendData),
            0x14 => Some(SerialMessageFunction::SendDataMulti),
            0x15 => Some(SerialMessageFunction::GetVersion),
            0x16 => Some(SerialMessageFunction::SendDataAbort),
            0x17 => Some(SerialMessageFunction::RFPowerLevelSet),
            0x18 => Some(SerialMessageFunction::SendDataMeta),
            0x20 => Some(SerialMessageFunction::MemoryGetId),
            0x21 => Some(SerialMessageFunction::MemoryGetByte),
            0x22 => Some(SerialMessageFunction::MemoryPutByte),
            0x23 => Some(SerialMessageFunction::MemoryGetBuffer),
            0x24 => Some(SerialMessageFunction::MemoryPutBuffer),
            0x30 => Some(SerialMessageFunction::ClockSet),
            0x31 => Some(SerialMessageFunction::ClockGet),
            0x32 => Some(SerialMessageFunction::ClockCompare),
            0x33 => Some(SerialMessageFunction::RtcTimerCreate),
            0x34 => Some(SerialMessageFunction::RtcTimerRead),
            0x35 => Some(SerialMessageFunction::RtcTimerDelete),
            0x36 => Some(SerialMessageFunction::RtcTimerCall),
            0x41 => Some(SerialMessageFunction::GetNodeProtocolInfo),
            0x42 => Some(SerialMessageFunction::SetDefault),
            0x44 => Some(SerialMessageFunction::ReplicationCommandComplete),
            0x45 => Some(SerialMessageFunction::ReplicationSendData),
            0x46 => Some(SerialMessageFunction::AssignReturnRoute),
            0x47 => Some(SerialMessageFunction::DeleteReturnRoute),
            0x48 => Some(SerialMessageFunction::RequestNodeNeighborUpdate),
            0x49 => Some(SerialMessageFunction::ApplicationUpdate),
            0x4A => Some(SerialMessageFunction::AddNodeToNetwork),
            0x4B => Some(SerialMessageFunction::RemoveNodeFromNetwork),
            0x4C => Some(SerialMessageFunction::CreateNewPrimary),
            0x4D => Some(SerialMessageFunction::ControllerChange),
            0x50 => Some(SerialMessageFunction::SetLearnMode),
            0x51 => Some(SerialMessageFunction::AssignSucReturnRoute),
            0x52 => Some(SerialMessageFunction::EnableSuc),
            0x53 => Some(SerialMessageFunction::RequestNetworkUpdate),
            0x54 => Some(SerialMessageFunction::SetSucNodeId),
            0x55 => Some(SerialMessageFunction::DeleteSucReturnRoute),
            0x56 => Some(SerialMessageFunction::GetSucNodeId),
            0x57 => Some(SerialMessageFunction::SendSucId),
            0x59 => Some(SerialMessageFunction::RediscoveryNeeded),
            0x60 => Some(SerialMessageFunction::RequestNodeInfo),
            0x61 => Some(SerialMessageFunction::RemoveFailedNodeId),
            0x62 => Some(SerialMessageFunction::IsFailedNode),
            0x63 => Some(SerialMessageFunction::ReplaceFailedNode),
            0x70 => Some(SerialMessageFunction::TimerStart),
            0x71 => Some(SerialMessageFunction::TimerRestart),
            0x72 => Some(SerialMessageFunction::TimerCancel),
            0x73 => Some(SerialMessageFunction::TimerCall),
            0x80 => Some(SerialMessageFunction::GetRoutingTableLine),
            0x81 => Some(SerialMessageFunction::GetTXCounter),
            0x82 => Some(SerialMessageFunction::ResetTXCounter),
            0x83 => Some(SerialMessageFunction::StoreNodeInfo),
            0x84 => Some(SerialMessageFunction::StoreHomeId),
            0x90 => Some(SerialMessageFunction::LockRouteResponse),
            0x91 => Some(SerialMessageFunction::SendDataRouteDemo),
            0x95 => Some(SerialMessageFunction::SerialApiTest),
            0xA0 => Some(SerialMessageFunction::SerialApiSlaveNodeInfo),
            0xA1 => Some(SerialMessageFunction::ApplicationSlaveCommandHandler),
            0xA2 => Some(SerialMessageFunction::SendSlaveNodeInfo),
            0xA3 => Some(SerialMessageFunction::SendSlaveData),
            0xA4 => Some(SerialMessageFunction::SetSlaveLearnMode),
            0xA5 => Some(SerialMessageFunction::GetVirtualNodes),
            0xA6 => Some(SerialMessageFunction::IsVirtualNode),
            0xD0 => Some(SerialMessageFunction::SetPromiscuousMode),
            _ => None,
        }
    }

    /// Returns the byte that stands for the function on the wire.
    #[verifier::when_used_as_spec(spec_as_byte)]
    pub fn as_byte(self) -> (byte: u8)
        ensures
            byte == self.spec_as_byte(),
    {
        match self {
            SerialMessageFunction::NoFunction => 0x00,
            SerialMessageFunction::DiscoveryNodes => 0x02,
            SerialMessageFunction::SerialApiApplNodeInformation => 0x03,
            SerialMessageFunction::ApplicationCommandHandler => 0x04,
            SerialMessageFunction::GetControllerCapabilities => 0x05,
            SerialMessageFunction::SerialApiSetTimeouts => 0x06,
            SerialMessageFunction::SerialGetCapabilities => 0x07,
            SerialMessageFunction::SerialApiSoftReset => 0x08,
            SerialMessageFunction::SetRFReceiveMode => 0x10,
            SerialMessageFunction::SetSleepMode => 0x11,
            SerialMessageFunction::SendNodeInformation => 0x12,
            SerialMessageFunction::SendData => 0x13,
            SerialMessageFunction::SendDataMulti => 0x14,
            SerialMessageFunction::GetVersion => 0x15,
            SerialMessageFunction::SendDataAbort => 0x16,
            SerialMessageFunction::RFPowerLevelSet => 0x17,
            SerialMessageFunction::SendDataMeta => 0x18,
            SerialMessageFunction::MemoryGetId => 0x20,
            SerialMessageFunction::MemoryGetByte => 0x21,
            SerialMessageFunction::MemoryPutByte => 0x22,
            SerialMessageFunction::MemoryGetBuffer => 0x23,
            SerialMessageFunction::MemoryPutBuffer => 0x24,
            SerialMessageFunction::ClockSet => 0x30,
            SerialMessageFunction::ClockGet => 0x31,
            SerialMessageFunction::ClockCompare => 0x32,
            SerialMessageFunction::RtcTimerCreate => 0x33,
            SerialMessageFunction::RtcTimerRead => 0x34,
            SerialMessageFunction::RtcTimerDelete => 0x35,
            SerialMessageFunction::RtcTimerCall => 0x36,
            SerialMessageFunction::GetNodeProtocolInfo => 0x41,
            SerialMessageFunction::SetDefault => 0x42,
            SerialMessageFunction::ReplicationCommandComplete => 0x44,
            SerialMessageFunction::ReplicationSendData => 0x45,
            SerialMessageFunction::AssignReturnRoute => 0x46,
            SerialMessageFunction::DeleteReturnRoute => 0x47,
            SerialMessageFunction::RequestNodeNeighborUpdate => 0x48,
            SerialMessageFunction::ApplicationUpdate => 0x49,
            SerialMessageFunction::AddNodeToNetwork => 0x4A,
            SerialMessageFunction::RemoveNodeFromNetwork => 0x4B,
            SerialMessageFunction::CreateNewPrimary => 0x4C,
            SerialMessageFunction::ControllerChange => 0x4D,
            SerialMessageFunction::SetLearnMode => 0x50,
            SerialMessageFunction::AssignSucReturnRoute => 0x51,
            SerialMessageFunction::EnableSuc => 0x52,
            SerialMessageFunction::RequestNetworkUpdate => 0x53,
            SerialMessageFunction::SetSucNodeId => 0x54,
            SerialMessageFunction::DeleteSucReturnRoute => 0x55,
            SerialMessageFunction::GetSucNodeId => 0x56,
            SerialMessageFunction::SendSucId => 0x57,
            SerialMessageFunction::RediscoveryNeeded => 0x59,
            SerialMessageFunction::RequestNodeInfo => 0x60,
            SerialMessageFunction::RemoveFailedNodeId => 0x61,
            SerialMessageFunction::IsFailedNode => 0x62,
            SerialMessageFunction::ReplaceFailedNode => 0x63,
            SerialMessageFunction::TimerStart => 0x70,
            SerialMessageFunction::TimerRestart => 0x71,
            SerialMessageFunction::TimerCancel => 0x72,
            SerialMessageFunction::TimerCall => 0x73,
            SerialMessageFunction::GetRoutingTableLine => 0x80,
            SerialMessageFunction::GetTXCounter => 0x81,
            SerialMessageFunction::ResetTXCounter => 0x82,
            SerialMessageFunction::StoreNodeInfo => 0x83,
            SerialMessageFunction::StoreHomeId => 0x84,
            SerialMessageFunction::LockRouteResponse => 0x90,
            SerialMessageFunction::SendDataRouteDemo => 0x91,
            SerialMessageFunction::SerialApiTest => 0x95,
            SerialMessageFunction::SerialApiSlaveNodeInfo => 0xA0,
            SerialMessageFunction::ApplicationSlaveCommandHandler => 0xA1,
            SerialMessageFunction::SendSlaveNodeInfo => 0xA2,
            SerialMessageFunction::SendSlaveData => 0xA3,
            SerialMessageFunction::SetSlaveLearnMode => 0xA4,
            SerialMessageFunction::GetVirtualNodes => 0xA5,
            SerialMessageFunction::IsVirtualNode => 0xA6,
            SerialMessageFunction::SetPromiscuousMode => 0xD0,
        }
    }

    /// Returns the function that `byte` stands for, or `None` for any other byte.
    #[verifier::when_used_as_spec(spec_from_byte)]
    pub fn from_byte(byte: u8) -> (found: Option<SerialMessageFunction>)
        ensures
            found == Self::spec_from_byte(byte),
    {
        match byte {
            0x00 => Some(SerialMessageFunction::NoFunction),
            0x02 => Some(SerialMessageFunction::DiscoveryNodes),
            0x03 => Some(SerialMessageFunction::SerialApiApplNodeInformation),
            0x04 => Some(SerialMessageFunction::ApplicationCommandHandler),
            0x05 => Some(SerialMessageFunction::GetControllerCapabilities),
            0x06 => Some(SerialMessageFunction::SerialApiSetTimeouts),
            0x07 => Some(SerialMessageFunction::SerialGetCapabilities),
            0x08 => Some(SerialMessageFunction::SerialApiSoftReset),
            0x10 => Some(SerialMessageFunction::SetRFReceiveMode),
            0x11 => Some(SerialMessageFunction::SetSleepMode),
            0x12 => Some(SerialMessageFunction::SendNodeInformation),
            0x13 => Some(SerialMessageFunction::SendData),
            0x14 => Some(SerialMessageFunction::SendDataMulti),
            0x15 => Some(SerialMessageFunction::GetVersion),
            0x16 => Some(SerialMessageFunction::SendDataAbort),
            0x17 => Some(SerialMessageFunction::RFPowerLevelSet),
            0x18 => Some(SerialMessageFunction::SendDataMeta),
            0x20 => Some(SerialMessageFunction::MemoryGetId),
            0x21 => Some(SerialMessageFunction::MemoryGetByte),
            0x22 => Some(SerialMessageFunction::MemoryPutByte),
            0x23 => Some(SerialMessageFunction::MemoryGetBuffer),
            0x24 => Some(SerialMessageFunction::MemoryPutBuffer),
            0x30 => Some(SerialMessageFunction::ClockSet),
            0x31 => Some(SerialMessageFunction::ClockGet),
            0x32 => Some(SerialMessageFunction::ClockCompare),
            0x33 => Some(SerialMessageFunction::RtcTimerCreate),
            0x34 => Some(SerialMessageFunction::RtcTimerRead),
            0x35 => Some(SerialMessageFunction::RtcTimerDelete),
            0x36 => Some(SerialMessageFunction::RtcTimerCall),
            0x41 => Some(SerialMessageFunction::GetNodeProtocolInfo),
            0x42 => Some(SerialMessageFunction::SetDefault),
            0x44 => Some(SerialMessageFunction::ReplicationCommandComplete),
            0x45 => Some(SerialMessageFunction::ReplicationSendData),
            0x46 => Some(SerialMessageFunction::AssignReturnRoute),
            0x47 => Some(SerialMessageFunction::DeleteReturnRoute),
            0x48 => Some(SerialMessageFunction::RequestNodeNeighborUpdate),
            0x49 => Some(SerialMessageFunction::ApplicationUpdate),
            0x4A => Some(SerialMessageFunction::AddNodeToNetwork),
            0x4B => Some(SerialMessageFunction::RemoveNodeFromNetwork),
            0x4C => Some(SerialMessageFunction::CreateNewPrimary),
            0x4D => Some(SerialMessageFunction::ControllerChange),
            0x50 => Some(SerialMessageFunction::SetLearnMode),
            0x51 => Some(SerialMessageFunction::AssignSucReturnRoute),
            0x52 => Some(SerialMessageFunction::EnableSuc),
            0x53 => Some(SerialMessageFunction::RequestNetworkUpdate),
            0x54 => Some(SerialMessageFunction::SetSucNodeId),
            0x55 => Some(SerialMessageFunction::DeleteSucReturnRoute),
            0x56 => Some(SerialMessageFunction::GetSucNodeId),
            0x57 => Some(SerialMessageFunction::SendSucId),
            0x59 => Some(SerialMessageFunction::RediscoveryNeeded),
            0x60 => Some(SerialMessageFunction::RequestNodeInfo),
            0x61 => Some(SerialMessageFunction::RemoveFailedNodeId),
            0x62 => Some(SerialMessageFunction::IsFailedNode),
            0x63 => Some(SerialMessageFunction::ReplaceFailedNode),
            0x70 => Some(SerialMessageFunction::TimerStart),
            0x71 => Some(SerialMessageFunction::TimerRestart),
            0x72 => Some(SerialMessageFunction::TimerCancel),
            0x73 => Some(SerialMessageFunction::TimerCall),
            0x80 => Some(SerialMessageFunction::GetRoutingTableLine),
            0x81 => Some(SerialMessageFunction::GetTXCounter),
            0x82 => Some(SerialMessageFunction::ResetTXCounter),
            0x83 => Some(SerialMessageFunction::StoreNodeInfo),
            0x84 => Some(SerialMessageFunction::StoreHomeId),
            0x90 => Some(SerialMessageFunction::LockRouteResponse),
            0x91 => Some(SerialMessageFunction::SendDataRouteDemo),
            0x95 => Some(SerialMessageFunction::SerialApiTest),
            0xA0 => Some(SerialMessageFunction::SerialApiSlaveNodeInfo),
            0xA1 => Some(SerialMessageFunction::ApplicationSlaveCommandHandler),
            0xA2 => Some(SerialMessageFunction::SendSlaveNodeInfo),
            0xA3 => Some(SerialMessageFunction::SendSlaveData),
            0xA4 => Some(SerialMessageFunction::SetSlaveLearnMode),
            0xA5 => Some(SerialMessageFunction::GetVirtualNodes),
            0xA6 => Some(SerialMessageFunction::IsVirtualNode),
            0xD0 => Some(SerialMessageFunction::SetPromiscuousMode),
            _ => None,
        }
    }

    /// Every function is found again from its byte.
    pub proof fn from_byte_of_as_byte(self)
        ensures
            Self::from_byte(self.as_byte()) == Some(self),
    {
    }

    /// A byte that stands for a function is the byte of that function.
    pub proof fn as_byte_of_from_byte(byte: u8)
        ensures
            Self::from_byte(byte) matches Some(found) ==> found.as_byte() == byte,
    {
    }
}

} // verus!
