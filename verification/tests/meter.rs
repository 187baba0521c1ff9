use rzw::cmds::meter::Meter;
use rzw::defs::{CommandClass, MeterData, MeterType, MeterValue};
use rzw::error::ErrorKind;

fn as_f64(value: MeterValue) -> f64 {
    value.mantissa as f64 / value.divisor as f64
}

fn calc(bytes: &[u8], precision: u8) -> f64 {
    as_f64(Meter::calc_value(bytes, precision))
}

#[test]
fn precision_scale_size() {
    assert_eq!((0x00, 0x00, 0x00), Meter::get_precision_scale_size(0b00000000));
    assert_eq!((0x07, 0x00, 0x00), Meter::get_precision_scale_size(0b11100000));
    assert_eq!((0x01, 0x03, 0x00), Meter::get_precision_scale_size(0b00111000));
    assert_eq!((0x01, 0x01, 0x00), Meter::get_precision_scale_size(0b00101000));
    assert_eq!((0x01, 0x01, 0x07), Meter::get_precision_scale_size(0b00101111));
    assert_eq!((0x01, 0x01, 0x01), Meter::get_precision_scale_size(0b00101001));
}

#[test]
fn calc_value() {
    assert_eq!(0.0, calc(&[0x00], 0));
    assert_eq!(1.27, calc(&[0x7F], 2));
    assert_eq!(-12.8, calc(&[0x80], 1));
    assert_eq!(0.00, calc(&[0x00, 0x00], 0));
    assert_eq!(32.767, calc(&[0x7F, 0xFF], 3));
    assert_eq!(-327.68, calc(&[0x80, 0x00], 2));
    assert_eq!(0.00, calc(&[0x00, 0x00, 0x00, 0x00], 0));
    assert_eq!(2147483.647, calc(&[0x7F, 0xFF, 0xFF, 0xFF], 3));
    assert_eq!(-21474836.48, calc(&[0x80, 0x00, 0x00, 0x00], 2));
}

#[test]
fn calc_value_is_mantissa_over_power_of_ten() {
    assert_eq!(MeterValue { mantissa: 127, divisor: 100 }, Meter::calc_value(&[0x7F], 2));
    assert_eq!(MeterValue { mantissa: -128, divisor: 10 }, Meter::calc_value(&[0x80], 1));
    assert_eq!(MeterValue { mantissa: -1, divisor: 1 }, Meter::calc_value(&[0xFF, 0xFF], 0));
    assert_eq!(
        MeterValue { mantissa: i32::MIN, divisor: 10_000_000 },
        Meter::calc_value(&[0x80, 0x00, 0x00, 0x00], 7)
    );
    assert_eq!(
        MeterValue { mantissa: 0x0102_0304, divisor: 1_000_000_000 },
        Meter::calc_value(&[0x01, 0x02, 0x03, 0x04], 9)
    );
}

#[test]
fn calc_value_of_any_other_size_is_zero() {
    assert_eq!(MeterValue { mantissa: 0, divisor: 1000 }, Meter::calc_value(&[], 3));
    assert_eq!(MeterValue { mantissa: 0, divisor: 1 }, Meter::calc_value(&[1, 2, 3], 0));
    assert_eq!(MeterValue { mantissa: 0, divisor: 10 }, Meter::calc_value(&[1, 2, 3, 4, 5], 1));
}

#[test]
fn rate_and_meter_type_are_unpacked() {
    assert_eq!((0, MeterType::Electric), Meter::get_rate_meter_type(0b0000_0001).unwrap());
    assert_eq!((1, MeterType::Gas), Meter::get_rate_meter_type(0b0010_0010).unwrap());
    assert_eq!((3, MeterType::Water), Meter::get_rate_meter_type(0b1110_0011).unwrap());
    assert_eq!(
        ErrorKind::UnknownZWave,
        Meter::get_rate_meter_type(0b0000_0100).unwrap_err().kind()
    );
    assert_eq!(ErrorKind::UnknownZWave, Meter::get_rate_meter_type(0).unwrap_err().kind());
}

#[test]
fn every_unit_of_every_meter_type() {
    let v = MeterValue { mantissa: 5, divisor: 10 };
    let table = [
        (MeterType::Electric, 0, MeterData::Electric_kWh(v)),
        (MeterType::Electric, 1, MeterData::Electric_kVAh(v)),
        (MeterType::Electric, 2, MeterData::Electric_W(v)),
        (MeterType::Electric, 3, MeterData::Electric_PulseCount(v)),
        (MeterType::Gas, 0, MeterData::Gas_meter2(v)),
        (MeterType::Gas, 1, MeterData::Gas_feet2(v)),
        (MeterType::Gas, 3, MeterData::Gas_PulseCount(v)),
        (MeterType::Water, 0, MeterData::Water_meter2(v)),
        (MeterType::Water, 1, MeterData::Water_feet2(v)),
        (MeterType::Water, 2, MeterData::Water_Gallons(v)),
        (MeterType::Water, 3, MeterData::Water_PulseCount(v)),
    ];
    for (typ, scale, expected) in table {
        let data = Meter::to_meter_data(v, typ, scale).unwrap();
        assert_eq!(expected, data);
        assert_eq!(scale, data.get_scale());
        assert_eq!(typ, data.meter_type());
        assert_eq!(v, data.value());
    }
}

#[test]
fn a_unit_that_the_meter_type_lacks_is_refused() {
    let v = MeterValue { mantissa: 5, divisor: 10 };
    assert_eq!(
        ErrorKind::UnknownZWave,
        Meter::to_meter_data(v, MeterType::Gas, 2).unwrap_err().kind()
    );
    assert_eq!(
        ErrorKind::UnknownZWave,
        Meter::to_meter_data(v, MeterType::Electric, 4).unwrap_err().kind()
    );
    assert_eq!(
        ErrorKind::UnknownZWave,
        Meter::to_meter_data(v, MeterType::Water, 255).unwrap_err().kind()
    );
}

#[test]
fn meter_get_commands() {
    let get = Meter::get(4);
    assert_eq!(vec![4, 2, 0x32, 0x01], get.to_vec());
    assert_eq!(CommandClass::METER, get.cmd_class);
    let v = MeterValue { mantissa: 0, divisor: 1 };
    assert_eq!(vec![4, 3, 0x32, 0x01, 0x00], Meter::get_v2(4, MeterData::Electric_kWh(v)).to_vec());
    assert_eq!(vec![4, 3, 0x32, 0x01, 0x08], Meter::get_v2(4, MeterData::Gas_feet2(v)).to_vec());
    assert_eq!(vec![4, 3, 0x32, 0x01, 0x10], Meter::get_v2(4, MeterData::Water_Gallons(v)).to_vec());
    assert_eq!(
        vec![4, 3, 0x32, 0x01, 0x18],
        Meter::get_v2(4, MeterData::Electric_PulseCount(v)).to_vec()
    );
}

#[test]
fn meter_report_of_electric_kwh() {
    // type electric, precision 1, scale 0, size 2, value 0x007B
    let msg = vec![0x00, 0x04, 0x06, 0x32, 0x02, 0x01, 0b001_00_010, 0x00, 0x7B];
    let data = Meter::report(msg).unwrap();
    assert_eq!(MeterData::Electric_kWh(MeterValue { mantissa: 123, divisor: 10 }), data);
    assert_eq!(12.3, as_f64(data.value()));
}

#[test]
fn meter_report_of_negative_water_reading() {
    let msg = vec![0x00, 0x04, 0x08, 0x32, 0x02, 0x03, 0b011_10_100, 0xFF, 0xFF, 0xFF, 0x85];
    let data = Meter::report(msg).unwrap();
    assert_eq!(MeterData::Water_Gallons(MeterValue { mantissa: -123, divisor: 1000 }), data);
    assert_eq!(-0.123, as_f64(data.value()));
}

#[test]
fn meter_report_refusals() {
    let kind = |msg: Vec<u8>| Meter::report(msg).unwrap_err().kind();
    // too short
    assert_eq!(ErrorKind::UnknownZWave, kind(vec![0, 4, 5, 0x32, 0x02, 0x01, 0x21]));
    assert_eq!(ErrorKind::UnknownZWave, kind(vec![]));
    // wrong class, wrong command
    assert_eq!(ErrorKind::UnknownZWave, kind(vec![0, 4, 6, 0x31, 0x02, 0x01, 0x22, 0x00, 0x7B]));
    assert_eq!(ErrorKind::UnknownZWave, kind(vec![0, 4, 6, 0x32, 0x03, 0x01, 0x22, 0x00, 0x7B]));
    // unknown meter type
    assert_eq!(ErrorKind::UnknownZWave, kind(vec![0, 4, 6, 0x32, 0x02, 0x04, 0x22, 0x00, 0x7B]));
    // size says one byte, two are there; size says four, two are there
    assert_eq!(ErrorKind::UnknownZWave, kind(vec![0, 4, 6, 0x32, 0x02, 0x01, 0x21, 0x00, 0x7B]));
    assert_eq!(ErrorKind::UnknownZWave, kind(vec![0, 4, 6, 0x32, 0x02, 0x01, 0x24, 0x00, 0x7B]));
    // gas has no unit of code 2
    assert_eq!(ErrorKind::UnknownZWave, kind(vec![0, 4, 6, 0x32, 0x02, 0x02, 0x32, 0x00, 0x7B]));
}

#[test]
fn meter_report_v2_with_previous_reading() {
    // rate 1, type electric; precision 2, scale 2 (W), size 2
    let msg = vec![
        0x00, 0x04, 0x0A, 0x32, 0x02, 0b0_01_00001, 0b010_10_010, 0x01, 0x00, // value 256
        0x00, 0x3C, // 60 seconds
        0x00, 0xC8, // previous value 200
    ];
    let (previous, delta, current) = Meter::report_v2(msg).unwrap();
    assert_eq!(MeterData::Electric_W(MeterValue { mantissa: 256, divisor: 100 }), current);
    assert_eq!(60, delta);
    assert_eq!(MeterData::Electric_W(MeterValue { mantissa: 200, divisor: 100 }), previous);
}

#[test]
fn meter_report_v2_of_electric_kwh() {
    // electric, precision 1, scale 0, size 2; value 123, 60 seconds, previous value 100
    let msg = vec![0x00, 0x03, 0x0A, 0x32, 0x02, 0x01, 0x22, 0x00, 0x7B, 0x00, 0x3C, 0x00, 0x64];
    let (previous, delta, current) = Meter::report_v2(msg).unwrap();
    assert_eq!(MeterData::Electric_kWh(MeterValue { mantissa: 100, divisor: 10 }), previous);
    assert_eq!(60, delta);
    assert_eq!(MeterData::Electric_kWh(MeterValue { mantissa: 123, divisor: 10 }), current);
    assert_eq!(10.0, as_f64(previous.value()));
    assert_eq!(12.3, as_f64(current.value()));
}

#[test]
fn meter_report_v2_with_previous_reading_of_four_bytes() {
    // water, precision 3, scale 2 (US gallons), size 4; what follows the
    // previous reading is passed over
    let msg = vec![
        0x00, 0x04, 0x0F, 0x32, 0x02, 0x03, 0b011_10_100, 0x00, 0x00, 0x04, 0xD2, // 1234
        0x01, 0x00, // 256 seconds
        0xFF, 0xFF, 0xFF, 0x85, // -123
        0xEE,
    ];
    let (previous, delta, current) = Meter::report_v2(msg).unwrap();
    assert_eq!(MeterData::Water_Gallons(MeterValue { mantissa: 1234, divisor: 1000 }), current);
    assert_eq!(256, delta);
    assert_eq!(MeterData::Water_Gallons(MeterValue { mantissa: -123, divisor: 1000 }), previous);
}

#[test]
fn meter_report_v2_without_previous_reading() {
    // the time is zero: the reading before is zero whatever follows
    let msg =
        vec![0x00, 0x04, 0x0A, 0x32, 0x02, 0x01, 0b010_10_010, 0x01, 0x00, 0x00, 0x00, 0x00, 0xC8];
    let (previous, delta, current) = Meter::report_v2(msg).unwrap();
    assert_eq!(MeterData::Electric_W(MeterValue { mantissa: 256, divisor: 100 }), current);
    assert_eq!(0, delta);
    assert_eq!(MeterData::Electric_W(MeterValue { mantissa: 0, divisor: 100 }), previous);
    assert_eq!(0.0, as_f64(previous.value()));

    // the bytes of the reading before are cut short
    let msg = vec![0x00, 0x04, 0x09, 0x32, 0x02, 0x01, 0b010_10_010, 0x01, 0x00, 0x01, 0x02, 0x00];
    let (previous, delta, current) = Meter::report_v2(msg).unwrap();
    assert_eq!(MeterData::Electric_W(MeterValue { mantissa: 256, divisor: 100 }), current);
    assert_eq!(0x0102, delta);
    assert_eq!(MeterData::Electric_W(MeterValue { mantissa: 0, divisor: 100 }), previous);

    // there are no bytes of a reading before at all
    let msg = vec![0x00, 0x04, 0x08, 0x32, 0x02, 0x01, 0b010_10_010, 0x01, 0x00, 0x01, 0x02];
    let (previous, delta, current) = Meter::report_v2(msg).unwrap();
    assert_eq!(MeterData::Electric_W(MeterValue { mantissa: 256, divisor: 100 }), current);
    assert_eq!(0x0102, delta);
    assert_eq!(MeterData::Electric_W(MeterValue { mantissa: 0, divisor: 100 }), previous);
}

#[test]
fn meter_report_v2_refusals() {
    let kind = |msg: Vec<u8>| Meter::report_v2(msg).unwrap_err().kind();
    assert_eq!(ErrorKind::UnknownZWave, kind(vec![0, 4, 5, 0x32, 0x02, 0x01, 0x21]));
    assert_eq!(ErrorKind::UnknownZWave, kind(vec![0, 4, 6, 0x31, 0x02, 0x01, 0x21, 0, 0, 0]));
    assert_eq!(ErrorKind::UnknownZWave, kind(vec![0, 4, 6, 0x32, 0x01, 0x01, 0x21, 0, 0, 0]));
    // unknown meter type in the five low bits
    assert_eq!(ErrorKind::UnknownZWave, kind(vec![0, 4, 6, 0x32, 0x02, 0x25, 0x21, 0, 0, 0]));
    // the time is cut short
    assert_eq!(ErrorKind::UnknownZWave, kind(vec![0, 4, 6, 0x32, 0x02, 0x01, 0x22, 0, 0, 0]));
    // gas has no unit of code 2
    assert_eq!(ErrorKind::UnknownZWave, kind(vec![0, 4, 6, 0x32, 0x02, 0x02, 0x31, 0, 0, 0]));
}
