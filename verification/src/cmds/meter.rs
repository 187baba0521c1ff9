//! The Meter Command Class: readings of electric, gas and water meters.
//!
//! A report holds the meter type, one byte that packs precision, scale and
//! size as `pppssSSS`, and the reading in `size` bytes, most significant byte
//! first, in two's complement. The reading stands for the number it holds
//! divided by ten to the power of the precision.

use super::{command, Message};
use crate::defs::{CommandClass, MeterData, MeterType, MeterValue};
use crate::error::{Error, ErrorKind};
use vstd::arithmetic::power::pow;
use vstd::prelude::*;
use vstd::slice::slice_subrange;

verus! {

/// The Meter Command Class.
#[derive(Debug, Clone, Copy)]
pub struct Meter;

/// Precision, scale and size as one byte packs them: three bits, two bits,
/// three bits, from the most significant bit down.
pub open spec fn precision_scale_size(bits: u8) -> (u8, u8, u8) {
    (bits / 32, (bits / 8) % 4, bits % 8)
}

/// Rate type and meter type code as one byte packs them: the rate type in bits
/// five and six, the code of the meter type in the five bits below.
pub open spec fn rate_and_type_code(bits: u8) -> (u8, u8) {
    ((bits / 32) % 4, bits % 32)
}

/// The number below `modulus` read in two's complement: the upper half of the
/// range stands for the negative numbers.
pub open spec fn signed(value: int, modulus: int) -> int {
    if 2 * value >= modulus {
        value - modulus
    } else {
        value
    }
}

/// The signed number that one, two or four bytes hold, most significant byte
/// first; zero for any other count of bytes.
pub open spec fn mantissa_of(bytes: Seq<u8>) -> int {
    if bytes.len() == 1 {
        signed(bytes[0] as int, 0x100)
    } else if bytes.len() == 2 {
        signed(bytes[0] * 0x100 + bytes[1], 0x1_0000)
    } else if bytes.len() == 4 {
        signed(
            bytes[0] * 0x100_0000 + bytes[1] * 0x1_0000 + bytes[2] * 0x100 + bytes[3],
            0x1_0000_0000,
        )
    } else {
        0
    }
}

/// Whether a meter of type `typ` has a unit with the code `scale`.
pub open spec fn unit_exists(typ: MeterType, scale: u8) -> bool {
    scale <= 3 && !(typ == MeterType::Gas && scale == 2)
}

/// Whether `data` is the reading `value` of a meter of type `typ` in the unit
/// with the code `scale`.
pub open spec fn is_reading(data: MeterData, value: MeterValue, typ: MeterType, scale: u8) -> bool {
    data.meter_type() == typ && data.get_scale() == scale && data.value() == value
}

/// Whether `value` is what `bytes` hold at the given precision.
pub open spec fn is_value(value: MeterValue, bytes: Seq<u8>, precision: u8) -> bool {
    value.mantissa == mantissa_of(bytes) && value.has_precision(precision as nat)
}

/// Whether `msg` is a Meter report of the first version: the class and the
/// command of the report, a known meter type, exactly as many bytes of reading
/// as the size says, and a unit that the meter type has.
pub open spec fn is_meter_report(msg: Seq<u8>) -> bool {
    &&& msg.len() >= 8
    &&& msg[3] == CommandClass::METER.as_byte()
    &&& msg[4] == 0x02
    &&& MeterType::from_byte(msg[5]) matches Some(typ)
    &&& msg.len() == 7 + precision_scale_size(msg[6]).2
    &&& unit_exists(typ, precision_scale_size(msg[6]).1)
}

/// Whether `msg` is a Meter report of the second version: the class and the
/// command of the report, a known meter type below the rate type, the reading
/// and the two bytes of the time after it, and a unit that the meter type has.
pub open spec fn is_meter_report_v2(msg: Seq<u8>) -> bool {
    &&& msg.len() >= 8
    &&& msg[3] == CommandClass::METER.as_byte()
    &&& msg[4] == 0x02
    &&& MeterType::from_byte(rate_and_type_code(msg[5]).1) matches Some(typ)
    &&& msg.len() >= 9 + precision_scale_size(msg[6]).2
    &&& unit_exists(typ, precision_scale_size(msg[6]).1)
}

/// The seconds between the reading of a report of the second version and the
/// reading before it: the two bytes after the reading, most significant first.
pub open spec fn delta_time_of(msg: Seq<u8>) -> int {
    let size = precision_scale_size(msg[6]).2;
    msg[7 + size] * 256 + msg[8 + size]
}

/// Whether a report of the second version holds a reading before this one: the
/// time between the two is not zero and the bytes of the earlier reading, which
/// stand right behind the two bytes of the time, are all there.
pub open spec fn has_previous(msg: Seq<u8>) -> bool {
    let size = precision_scale_size(msg[6]).2;
    delta_time_of(msg) != 0 && msg.len() >= 9 + 2 * size
}

/// Whether `data` is the reading that the report `msg` of the first version
/// holds: `msg` is such a report, and `data` has its meter type, the unit of
/// its scale and the value of its bytes at its precision.
pub open spec fn is_reading_of(msg: Seq<u8>, data: MeterData) -> bool {
    &&& is_meter_report(msg)
    &&& Some(data.meter_type()) == MeterType::from_byte(msg[5])
    &&& data.get_scale() == precision_scale_size(msg[6]).1
    &&& is_value(data.value(), msg.subrange(7, msg.len() as int), precision_scale_size(msg[6]).0)
}

/// Whether `previous`, `delta_time` and `current` are what the report `msg` of
/// the second version holds: `msg` is such a report; `current` has its meter
/// type, the unit of its scale and the value of its bytes at its precision;
/// `delta_time` is its time; and `previous` has the same meter type and unit,
/// with the value of the bytes of the earlier reading where the report holds
/// one, and the value zero where it does not.
pub open spec fn are_readings_of(
    msg: Seq<u8>,
    previous: MeterData,
    delta_time: u16,
    current: MeterData,
) -> bool {
    let (precision, scale, size) = precision_scale_size(msg[6]);
    &&& is_meter_report_v2(msg)
    &&& delta_time == delta_time_of(msg)
    &&& Some(current.meter_type()) == MeterType::from_byte(rate_and_type_code(msg[5]).1)
    &&& current.get_scale() == scale
    &&& is_value(current.value(), msg.subrange(7, 7 + size), precision)
    &&& previous.meter_type() == current.meter_type()
    &&& previous.get_scale() == scale
    &&& has_previous(msg) ==> is_value(
        previous.value(),
        msg.subrange(9 + size, 9 + 2 * size),
        precision,
    )
    &&& !has_previous(msg) ==> is_value(previous.value(), Seq::empty(), precision)
}

/// `num::PrimInt::pow` on `i32`. It hands the call on to `i32::pow`, which
/// raises the base to the power of the exponent. For a base from zero to ten
/// and an exponent up to nine no power on the way exceeds ten to the ninth,
/// which fits in an `i32`, so the call cannot overflow.
#[verifier::external_body]
fn int_pow(base: i32, exponent: u32) -> (power: i32)
    requires
        0 <= base <= 10,
        exponent <= 9,
    ensures
        power == pow(base as int, exponent as nat),
{
    num::PrimInt::pow(base, exponent)
}

impl Meter {
    /// The command that asks node `node_id` for its reading.
    pub fn get(node_id: u8) -> (message: Message)
        ensures
            message@ =~= command(node_id, CommandClass::METER, 0x01, Seq::empty()),
    {
        Message::new(node_id, CommandClass::METER, 0x01, Vec::new())
    }

    /// The command that asks node `node_id` for its reading in the unit of
    /// `scale`: the code of that unit stands in bits three and four of the one
    /// data byte.
    pub fn get_v2(node_id: u8, scale: MeterData) -> (message: Message)
        ensures
            message@ =~= command(
                node_id,
                CommandClass::METER,
                0x01,
                seq![(scale.get_scale() * 8) as u8],
            ),
    {
        let code = scale.get_scale();
        assert(code << 3 == code * 8) by (bit_vector)
            requires
                code <= 3,
        ;
        Message::new(node_id, CommandClass::METER, 0x01, vec![code << 3])
    }

    /// Reads the reading out of a Meter report of the first version.
    ///
    /// The report is refused as `UnknownZWave` unless it is one by
    /// `is_meter_report`.
    pub fn report(msg: Vec<u8>) -> (reading: Result<MeterData, Error>)
        ensures
            match reading {
                Ok(data) => is_reading_of(msg@, data),
                Err(e) => !is_meter_report(msg@) && e.kind() == ErrorKind::UnknownZWave,
            },
    {
        if msg.len() < 8 {
            return Err(Error::new(ErrorKind::UnknownZWave, "Message is to short"));
        }
        if msg[3] != CommandClass::METER.as_byte() || msg[4] != 0x02 {
            return Err(
                Error::new(ErrorKind::UnknownZWave, "Answer contained wrong command class"),
            );
        }
        let typ = match MeterType::from_byte(msg[5]) {
            Some(typ) => typ,
            None => {
                return Err(
                    Error::new(ErrorKind::UnknownZWave, "Answer contained wrong meter type"),
                );
            },
        };
        let (precision, scale, size) = Meter::get_precision_scale_size(msg[6]);
        if msg.len() != 7 + size as usize {
            return Err(Error::new(ErrorKind::UnknownZWave, "Message has the wrong length"));
        }
        let value = Meter::calc_value(slice_subrange(msg.as_slice(), 7, 7 + size as usize), precision);
        Meter::to_meter_data(value, typ, scale)
    }

    /// Reads a Meter report of the second version: the reading before this one,
    /// the seconds between the two, and this reading.
    ///
    /// The report is refused as `UnknownZWave` unless it is one by
    /// `is_meter_report_v2`. The reading before this one is zero where
    /// `has_previous` does not hold.
    pub fn report_v2(msg: Vec<u8>) -> (readings: Result<(MeterData, u16, MeterData), Error>)
        ensures
            match readings {
                Ok((previous, delta_time, current)) => are_readings_of(
                    msg@,
                    previous,
                    delta_time,
                    current,
                ),
                Err(e) => !is_meter_report_v2(msg@) && e.kind() == ErrorKind::UnknownZWave,
            },
    {
        if msg.len() < 8 {
            return Err(Error::new(ErrorKind::UnknownZWave, "Message is to short"));
        }
        if msg[3] != CommandClass::METER.as_byte() || msg[4] != 0x02 {
            return Err(
                Error::new(ErrorKind::UnknownZWave, "Answer contained wrong command class"),
            );
        }
        let typ = match Meter::get_rate_meter_type(msg[5]) {
            Ok((_, typ)) => typ,
            Err(e) => {
                return Err(e);
            },
        };
        let (precision, scale, size) = Meter::get_precision_scale_size(msg[6]);
        let size = size as usize;
        if msg.len() < 9 + size {
            return Err(Error::new(ErrorKind::UnknownZWave, "Message has the wrong length"));
        }
        let value = Meter::calc_value(slice_subrange(msg.as_slice(), 7, 7 + size), precision);
        let high = msg[7 + size] as u16;
        let low = msg[8 + size] as u16;
        assert((high << 8) | low == high * 256 + low) by (bit_vector)
            requires
                high < 256,
                low < 256,
        ;
        let time = (high << 8) | low;
        let pre_value = if time == 0 || msg.len() < 9 + 2 * size {
            Meter::calc_value(slice_subrange(msg.as_slice(), 0, 0), precision)
        } else {
            Meter::calc_value(
                slice_subrange(msg.as_slice(), 9 + size, 9 + 2 * size),
                precision,
            )
        };
        let previous = match Meter::to_meter_data(pre_value, typ, scale) {
            Ok(previous) => previous,
            Err(e) => {
                return Err(e);
            },
        };
        let current = match Meter::to_meter_data(value, typ, scale) {
            Ok(current) => current,
            Err(e) => {
                return Err(e);
            },
        };
        Ok((previous, time, current))
    }

    /// Unpacks precision, scale and size from the byte that holds them.
    pub fn get_precision_scale_size(input: u8) -> (parts: (u8, u8, u8))
        ensures
            parts == precision_scale_size(input),
            parts.0 <= 7,
            parts.1 <= 3,
            parts.2 <= 7,
    {
        assert(input >> 5 == input / 32) by (bit_vector);
        assert((input >> 3) & 0b0000_0011 == (input / 8) % 4) by (bit_vector);
        assert(input & 0b0000_0111 == input % 8) by (bit_vector);
        (input >> 5, (input >> 3) & 0b0000_0011, input & 0b0000_0111)
    }

    /// Reads `bytes` as a signed number, most significant byte first, and pairs
    /// it with ten to the power of `precision`: the reading is the first divided
    /// by the second.
    pub fn calc_value(bytes: &[u8], precision: u8) -> (value: MeterValue)
        requires
            precision <= 9,
        ensures
            is_value(value, bytes@, precision),
    {
        let divisor = int_pow(10, precision as u32);
        let mantissa: i32 = if bytes.len() == 1 {
            Meter::to_signed(bytes[0] as i64, 0x100)
        } else if bytes.len() == 2 {
            Meter::to_signed(bytes[0] as i64 * 0x100 + bytes[1] as i64, 0x1_0000)
        } else if bytes.len() == 4 {
            Meter::to_signed(
                bytes[0] as i64 * 0x100_0000 + bytes[1] as i64 * 0x1_0000 + bytes[2] as i64 * 0x100
                    + bytes[3] as i64,
                0x1_0000_0000,
            )
        } else {
            0
        };
        MeterValue { mantissa, divisor }
    }

    /// Reads a number below `modulus` in two's complement.
    fn to_signed(value: i64, modulus: i64) -> (number: i32)
        requires
            0 <= value < modulus <= 0x1_0000_0000,
        ensures
            number == signed(value as int, modulus as int),
    {
        if 2 * value >= modulus {
            (value - modulus) as i32
        } else {
            value as i32
        }
    }

    /// Gives the reading `data` the unit that `typ` and `scale` name.
    ///
    /// Fails with `UnknownZWave` where the meter type has no unit of that code.
    pub fn to_meter_data(data: MeterValue, typ: MeterType, scale: u8) -> (reading: Result<
        MeterData,
        Error,
    >)
        ensures
            match reading {
                Ok(reading) => unit_exists(typ, scale) && is_reading(reading, data, typ, scale),
                Err(e) => !unit_exists(typ, scale) && e.kind() == ErrorKind::UnknownZWave,
            },
    {
        match (typ, scale) {
            (MeterType::Electric, 0x00) => Ok(MeterData::Electric_kWh(data)),
            (MeterType::Electric, 0x01) => Ok(MeterData::Electric_kVAh(data)),
            (MeterType::Electric, 0x02) => Ok(MeterData::Electric_W(data)),
            (MeterType::Electric, 0x03) => Ok(MeterData::Electric_PulseCount(data)),
            (MeterType::Gas, 0x00) => Ok(MeterData::Gas_meter2(data)),
            (MeterType::Gas, 0x01) => Ok(MeterData::Gas_feet2(data)),
            (MeterType::Gas, 0x03) => Ok(MeterData::Gas_PulseCount(data)),
            (MeterType::Water, 0x00) => Ok(MeterData::Water_meter2(data)),
            (MeterType::Water, 0x01) => Ok(MeterData::Water_feet2(data)),
            (MeterType::Water, 0x02) => Ok(MeterData::Water_Gallons(data)),
            (MeterType::Water, 0x03) => Ok(MeterData::Water_PulseCount(data)),
            _ => Err(Error::new(ErrorKind::UnknownZWave, "The meter value can't be created")),
        }
    }

    /// Unpacks the rate type and the meter type from the byte that holds them.
    ///
    /// Fails with `UnknownZWave` where the five low bits are no meter type.
    pub fn get_rate_meter_type(input: u8) -> (parts: Result<(u8, MeterType), Error>)
        ensures
            match parts {
                Ok((rate, typ)) => {
                    &&& rate == rate_and_type_code(input).0
                    &&& MeterType::from_byte(rate_and_type_code(input).1) == Some(typ)
                },
                Err(e) => {
                    &&& MeterType::from_byte(rate_and_type_code(input).1) is None
                    &&& e.kind() == ErrorKind::UnknownZWave
                },
            },
    {
        assert(input & 0b0001_1111 == input % 32) by (bit_vector);
        assert((input >> 5) & 0b0000_0011 == (input / 32) % 4) by (bit_vector);
        match MeterType::from_byte(input & 0b0001_1111) {
            Some(typ) => Ok(((input >> 5) & 0b0000_0011, typ)),
            None => Err(Error::new(ErrorKind::UnknownZWave, "Answer contained wrong meter type")),
        }
    }
}

} // verus!
