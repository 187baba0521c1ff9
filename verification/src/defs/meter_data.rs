//! Meter readings.

use vstd::arithmetic::power::pow;
use vstd::prelude::*;

verus! {

/// What a meter measures.
#[derive(Copy, Clone, Debug, PartialEq, Eq, Structural)]
pub enum MeterType {
    Electric,
    Gas,
    Water,
}

impl MeterType {
    /// The byte that stands for the meter type on the wire.
    pub open spec fn spec_as_byte(self) -> u8 {
        match self {
            MeterType::Electric => 0x01,
            MeterType::Gas => 0x02,
            MeterType::Water => 0x03,
        }
    }

    /// The meter type that a byte stands for, if it stands for one.
    pub open spec fn spec_from_byte(byte: u8) -> Option<MeterType> {
        match byte {
            0x01 => Some(MeterType::Electric),
            0x02 => Some(MeterType::Gas),
            0x03 => Some(MeterType::Water),
            _ => None,
        }
    }

    /// Returns the byte that stands for the meter type on the wire.
    #[verifier::when_used_as_spec(spec_as_byte)]
    pub fn as_byte(self) -> (byte: u8)
        ensures
            byte == self.spec_as_byte(),
    {
        match self {
            MeterType::Electric => 0x01,
            MeterType::Gas => 0x02,
            MeterType::Water => 0x03,
        }
    }

    /// Returns the meter type that `byte` stands for, or `None` for any other byte.
    #[verifier::when_used_as_spec(spec_from_byte)]
    pub fn from_byte(byte: u8) -> (found: Option<MeterType>)
        ensures
            found == Self::spec_from_byte(byte),
    {
        match byte {
            0x01 => Some(MeterType::Electric),
            0x02 => Some(MeterType::Gas),
            0x03 => Some(MeterType::Water),
            _ => None,
        }
    }

    /// Every meter type is found again from its byte.
    pub proof fn from_byte_of_as_byte(self)
        ensures
            Self::from_byte(self.as_byte()) == Some(self),
    {
    }

    /// A byte that stands for a meter type is the byte of that meter type.
    pub proof fn as_byte_of_from_byte(byte: u8)
        ensures
            Self::from_byte(byte) matches Some(found) ==> found.as_byte() == byte,
    {
    }
}

/// A reading as an exact decimal: `mantissa / divisor`.
///
/// The divisor is the power of ten that the report's precision names, so the
/// precision is the number of digits behind the decimal point.
#[derive(Copy, Clone, Debug, PartialEq, Eq, Structural)]
pub struct MeterValue {
    pub mantissa: i32,
    pub divisor: i32,
}

impl MeterValue {
    /// Whether the divisor is ten to the power of `precision`.
    pub open spec fn has_precision(self, precision: nat) -> bool {
        self.divisor == pow(10, precision)
    }
}

/// A reading with its unit.
#[derive(Copy, Clone, Debug, PartialEq, Eq, Structural)]
#[allow(non_camel_case_types)]
pub enum MeterData {
    Electric_kWh(MeterValue),
    Electric_kVAh(MeterValue),
    Electric_W(MeterValue),
    Electric_PulseCount(MeterValue),
    Gas_meter2(MeterValue),
    Gas_feet2(MeterValue),
    Gas_PulseCount(MeterValue),
    Water_meter2(MeterValue),
    Water_feet2(MeterValue),
    Water_Gallons(MeterValue),
    Water_PulseCount(MeterValue),
}

impl MeterData {
    /// The code of the unit within its meter type.
    pub open spec fn spec_get_scale(&self) -> u8 {
        match *self {
            MeterData::Electric_kWh(_) => 0x00,
            MeterData::Electric_kVAh(_) => 0x01,
            MeterData::Electric_W(_) => 0x02,
            MeterData::Electric_PulseCount(_) => 0x03,
            MeterData::Gas_meter2(_) => 0x00,
            MeterData::Gas_feet2(_) => 0x01,
            MeterData::Gas_PulseCount(_) => 0x03,
            MeterData::Water_meter2(_) => 0x00,
            MeterData::Water_feet2(_) => 0x01,
            MeterData::Water_Gallons(_) => 0x02,
            MeterData::Water_PulseCount(_) => 0x03,
        }
    }

    /// What the meter of the reading measures.
    pub open spec fn spec_meter_type(&self) -> MeterType {
        match *self {
            MeterData::Electric_kWh(_) => MeterType::Electric,
            MeterData::Electric_kVAh(_) => MeterType::Electric,
            MeterData::Electric_W(_) => MeterType::Electric,
            MeterData::Electric_PulseCount(_) => MeterType::Electric,
            MeterData::Gas_meter2(_) => MeterType::Gas,
            MeterData::Gas_feet2(_) => MeterType::Gas,
            MeterData::Gas_PulseCount(_) => MeterType::Gas,
            MeterData::Water_meter2(_) => MeterType::Water,
            MeterData::Water_feet2(_) => MeterType::Water,
            MeterData::Water_Gallons(_) => MeterType::Water,
            MeterData::Water_PulseCount(_) => MeterType::Water,
        }
    }

    /// The reading without its unit.
    pub open spec fn spec_value(&self) -> MeterValue {
        match *self {
            MeterData::Electric_kWh(v) => v,
            MeterData::Electric_kVAh(v) => v,
            MeterData::Electric_W(v) => v,
            MeterData::Electric_PulseCount(v) => v,
            MeterData::Gas_meter2(v) => v,
            MeterData::Gas_feet2(v) => v,
            MeterData::Gas_PulseCount(v) => v,
            MeterData::Water_meter2(v) => v,
            MeterData::Water_feet2(v) => v,
            MeterData::Water_Gallons(v) => v,
            MeterData::Water_PulseCount(v) => v,
        }
    }

    /// Returns the code of the unit within its meter type.
    #[verifier::when_used_as_spec(spec_get_scale)]
    pub fn get_scale(&self) -> (scale: u8)
        ensures
            scale == self.get_scale(),
            scale <= 3,
    {
        match *self {
            MeterData::Electric_kWh(_) => 0x00,
            MeterData::Electric_kVAh(_) => 0x01,
            MeterData::Electric_W(_) => 0x02,
            MeterData::Electric_PulseCount(_) => 0x03,
            MeterData::Gas_meter2(_) => 0x00,
            MeterData::Gas_feet2(_) => 0x01,
            MeterData::Gas_PulseCount(_) => 0x03,
            MeterData::Water_meter2(_) => 0x00,
            MeterData::Water_feet2(_) => 0x01,
            MeterData::Water_Gallons(_) => 0x02,
            MeterData::Water_PulseCount(_) => 0x03,
        }
    }

    /// Returns what the meter of the reading measures.
    #[verifier::when_used_as_spec(spec_meter_type)]
    pub fn meter_type(&self) -> (typ: MeterType)
        ensures
            typ == self.meter_type(),
    {
        match *self {
            MeterData::Electric_kWh(_) => MeterType::Electric,
            MeterData::Electric_kVAh(_) => MeterType::Electric,
            MeterData::Electric_W(_) => MeterType::Electric,
            MeterData::Electric_PulseCount(_) => MeterType::Electric,
            MeterData::Gas_meter2(_) => MeterType::Gas,
            MeterData::Gas_feet2(_) => MeterType::Gas,
            MeterData::Gas_PulseCount(_) => MeterType::Gas,
            MeterData::Water_meter2(_) => MeterType::Water,
            MeterData::Water_feet2(_) => MeterType::Water,
            MeterData::Water_Gallons(_) => MeterType::Water,
            MeterData::Water_PulseCount(_) => MeterType::Water,
        }
    }

    /// Returns the reading without its unit.
    #[verifier::when_used_as_spec(spec_value)]
    pub fn value(&self) -> (value: MeterValue)
        ensures
            value == self.value(),
    {
        match *self {
            MeterData::Electric_kWh(v) => v,
            MeterData::Electric_kVAh(v) => v,
            MeterData::Electric_W(v) => v,
            MeterData::Electric_PulseCount(v) => v,
            MeterData::Gas_meter2(v) => v,
            MeterData::Gas_feet2(v) => v,
            MeterData::Gas_PulseCount(v) => v,
            MeterData::Water_meter2(v) => v,
            MeterData::Water_feet2(v) => v,
            MeterData::Water_Gallons(v) => v,
            MeterData::Water_PulseCount(v) => v,
        }
    }

    /// Two readings of the same meter type, unit and value are the same reading.
    pub proof fn same_parts_same_reading(self, other: MeterData)
        requires
            self.meter_type() == other.meter_type(),
            self.get_scale() == other.get_scale(),
            self.value() == other.value(),
        ensures
            self == other,
    {
    }
}

} // verus!
