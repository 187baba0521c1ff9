//! The generic types of nodes.

use vstd::prelude::*;

verus! {

/// The generic type of a node: a coarse category of device.
#[derive(Copy, Clone, Debug, PartialEq, Eq, Structural)]
pub enum GenericType {
    Unknown,
    RemoteController,
    StaticController,
    AvControlPoint,
    RoutingSlave,
    Display,
    GarageDoor,
    WindowCovering,
    Thermostat,
    RepeaterSlave,
    BinarySwitch,
    MultiLevelSwitch,
    RemoteSwitch,
    ToggleSwitch,
    ZIpGateway,
    ZIpNode,
    Ventilation,
    GenericSecurityPanel,
    RemoteSwitch2,
    BinarySensor,
    MultilevelSensor,
    WaterControl,
    PulseMeter,
    Meter,
    EntryControl,
    SemiInteroperable,
    AlarmSensor,
    NonInteroperable,
}

impl GenericType {
    /// The byte that stands for the type on the wire.
    pub open spec fn spec_as_byte(self) -> u8 {
        match self {
            GenericType::Unknown => 0x00,
            GenericType::RemoteController => 0x01,
            GenericType::StaticController => 0x02,
            GenericType::AvControlPoint => 0x03,
            GenericType::RoutingSlave => 0x04,
            GenericType::Display => 0x06,
            GenericType::GarageDoor => 0x07,
            GenericType::WindowCovering => 0x09,
            GenericType::Thermostat => 0x08,
            GenericType::RepeaterSlave => 0x0F,
            GenericType::BinarySwitch => 0x10,
            GenericType::MultiLevelSwitch => 0x11,
            GenericType::RemoteSwitch => 0x12,
            GenericType::ToggleSwitch => 0x13,
            GenericType::ZIpGateway => 0x14,
            GenericType::ZIpNode => 0x15,
            GenericType::Ventilation => 0x16,
            GenericType::GenericSecurityPanel => 0x17,
            GenericType::RemoteSwitch2 => 0x18,
            GenericType::BinarySensor => 0x20,
            GenericType::MultilevelSensor => 0x21,
            GenericType::WaterControl => 0x22,
            GenericType::PulseMeter => 0x30,
            GenericType::Meter => 0x31,
            GenericType::EntryControl => 0x40,
            GenericType::SemiInteroperable => 0x50,
            GenericType::AlarmSensor => 0xA1,
            GenericType::NonInteroperable => 0xFF,
        }
    }

    /// The type that a byte stands for, if it stands for one.
    pub open spec fn spec_from_byte(byte: u8) -> Option<GenericType> {
        match byte {
            0x00 => Some(GenericType::Unknown),
            0x01 => Some(GenericType::RemoteController),
            0x02 => Some(GenericType::StaticController),
            0x03 => Some(GenericType::AvControlPoint),
            0x04 => Some(GenericType::RoutingSlave),
            0x06 => Some(GenericType::Display),
            0x07 => Some(GenericType::GarageDoor),
            0x08 => Some(GenericType::Thermostat),
            0x09 => Some(GenericType::WindowCovering),
            0x0F => Some(GenericType::RepeaterSlave),
            0x10 => Some(GenericType::BinarySwitch),
            0x11 => Some(GenericType::MultiLevelSwitch),
            0x12 => Some(GenericType::RemoteSwitch),
            0x13 => Some(GenericType::ToggleSwitch),
            0x14 => Some(GenericType::ZIpGateway),
            0x15 => Some(GenericType::ZIpNode),
            0x16 => Some(GenericType::Ventilation),
            0x17 => Some(GenericType::GenericSecurityPanel),
            0x18 => Some(GenericType::RemoteSwitch2),
            0x20 => Some(GenericType::BinarySensor),
            0x21 => Some(GenericType::MultilevelSensor),
            0x22 => Some(GenericType::WaterControl),
            0x30 => Some(GenericType::PulseMeter),
            0x31 => Some(GenericType::Meter),
            0x40 => Some(GenericType::EntryControl),
            0x50 => Some(GenericType::SemiInteroperable),
            0xA1 => Some(GenericType::AlarmSensor),
            0xFF => Some(GenericType::NonInteroperable),
            _ => None,
        }
    }

    /// Returns the byte that stands for the type on the wire.
    #[verifier::when_used_as_spec(spec_as_byte)]
    pub fn as_byte(self) -> (byte: u8)
        ensures
            byte == self.spec_as_byte(),
    {
        match self {
            GenericType::Unknown => 0x00,
            GenericType::RemoteController => 0x01,
            GenericType::StaticController => 0x02,
            GenericType::AvControlPoint => 0x03,
            GenericType::RoutingSlave => 0x04,
            GenericType::Display => 0x06,
            GenericType::GarageDoor => 0x07,
            GenericType::WindowCovering => 0x09,
            GenericType::Thermostat => 0x08,
            GenericType::RepeaterSlave => 0x0F,
            GenericType::BinarySwitch => 0x10,
            GenericType::MultiLevelSwitch => 0x11,
            GenericType::RemoteSwitch => 0x12,
            GenericType::ToggleSwitch => 0x13,
            GenericType::ZIpGateway => 0x14,
            GenericType::ZIpNode => 0x15,
            GenericType::Ventilation => 0x16,
            GenericType::GenericSecurityPanel => 0x17,
            GenericType::RemoteSwitch2 => 0x18,
            GenericType::BinarySensor => 0x20,
            GenericType::MultilevelSensor => 0x21,
            GenericType::WaterControl => 0x22,
            GenericType::PulseMeter => 0x30,
            GenericType::Meter => 0x31,
            GenericType::EntryControl => 0x40,
            GenericType::SemiInteroperable => 0x50,
            GenericType::AlarmSensor => 0xA1,
            GenericType::NonInteroperable => 0xFF,
        }
    }

    /// Returns the type that `byte` stands for, or `None` for any other byte.
    #[verifier::when_used_as_spec(spec_from_byte)]
    pub fn from_byte(byte: u8) -> (found: Option<GenericType>)
        ensures
            found == Self::spec_from_byte(byte),
    {
        match byte {
            0x00 => Some(GenericType::Unknown),
            0x01 => Some(GenericType::RemoteController),
            0x02 => Some(GenericType::StaticController),
            0x03 => Some(GenericType::AvControlPoint),
            0x04 => Some(GenericType::RoutingSlave),
            0x06 => Some(GenericType::Display),
            0x07 => Some(GenericType::GarageDoor),
            0x08 => Some(GenericType::Thermostat),
            0x09 => Some(GenericType::WindowCovering),
            0x0F => Some(GenericType::RepeaterSlave),
            0x10 => Some(GenericType::BinarySwitch),
            0x11 => Some(GenericType::MultiLevelSwitch),
            0x12 => Some(GenericType::RemoteSwitch),
            0x13 => Some(GenericType::ToggleSwitch),
            0x14 => Some(GenericType::ZIpGateway),
            0x15 => Some(GenericType::ZIpNode),
            0x16 => Some(GenericType::Ventilation),
            0x17 => Some(GenericType::GenericSecurityPanel),
            0x18 => Some(GenericType::RemoteSwitch2),
            0x20 => Some(GenericType::BinarySensor),
            0x21 => Some(GenericType::MultilevelSensor),
            0x22 => Some(GenericType::WaterControl),
            0x30 => Some(GenericType::PulseMeter),
            0x31 => Some(GenericType::Meter),
            0x40 => Some(GenericType::EntryControl),
            0x50 => Some(GenericType::SemiInteroperable),
            0xA1 => Some(GenericType::AlarmSensor),
            0xFF => Some(GenericType::NonInteroperable),
            _ => None,
        }
    }

    /// Every type is found again from its byte.
    pub proof fn from_byte_of_as_byte(self)
        ensures
            Self::from_byte(self.as_byte()) == Some(self),
    {
    }

    /// A byte that stands for a type is the byte of that type.
    pub proof fn as_byte_of_from_byte(byte: u8)
        ensures
            Self::from_byte(byte) matches Some(found) ==> found.as_byte() == byte,
    {
    }
}

impl GenericType {
    /// The type that a byte stands for, `Unknown` where it stands for none.
    pub open spec fn spec_from_byte_or_unknown(byte: u8) -> GenericType {
        match Self::spec_from_byte(byte) {
            Some(found) => found,
            None => GenericType::Unknown,
        }
    }

    /// Returns the type that `byte` stands for, `Unknown` where it stands for none.
    #[verifier::when_used_as_spec(spec_from_byte_or_unknown)]
    pub fn from_byte_or_unknown(byte: u8) -> (found: GenericType)
        ensures
            found == Self::spec_from_byte_or_unknown(byte),
    {
        match Self::from_byte(byte) {
            Some(found) => found,
            None => GenericType::Unknown,
        }
    }
}

} // verus!
