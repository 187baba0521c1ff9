use rzw::cmds::basic::Basic;
use rzw::cmds::info::NodeInfo;
use rzw::cmds::switch_binary::SwitchBinary;
use rzw::cmds::switch_multilevel::SwitchMultilevel;
use rzw::cmds::Message;
use rzw::defs::{CommandClass, GenericType};
use rzw::error::ErrorKind;

#[test]
fn basic_commands() {
    assert_eq!(vec![3, 3, 0x20, 0x01, 0xFF], Basic::set(3, 0xFF).to_vec());
    assert_eq!(vec![3, 3, 0x20, 0x01, 0x00], Basic::set(3, 0x00).to_vec());
    assert_eq!(vec![9, 2, 0x20, 0x02], Basic::get(9).to_vec());
    let set = Basic::set(3, 0x63);
    assert_eq!(3, set.node_id);
    assert_eq!(CommandClass::BASIC, set.cmd_class);
    assert_eq!(0x01, set.cmd);
    assert_eq!(vec![0x63], set.data);
}

#[test]
fn basic_report() {
    assert_eq!(Ok(0xFF), Basic::report(vec![0, 3, 3, 0x20, 0x03, 0xFF]));
    assert_eq!(Ok(0x00), Basic::report(vec![9, 9, 9, 0x20, 0x03, 0x00]));
    let kind = |msg: Vec<u8>| Basic::report(msg).unwrap_err().kind();
    assert_eq!(ErrorKind::UnknownZWave, kind(vec![]));
    assert_eq!(ErrorKind::UnknownZWave, kind(vec![0, 3, 3, 0x20, 0x03]));
    assert_eq!(ErrorKind::UnknownZWave, kind(vec![0, 3, 3, 0x20, 0x03, 0xFF, 0x00]));
    assert_eq!(ErrorKind::UnknownZWave, kind(vec![0, 3, 3, 0x25, 0x03, 0xFF]));
    assert_eq!(ErrorKind::UnknownZWave, kind(vec![0, 3, 3, 0x20, 0x02, 0xFF]));
}

#[test]
fn switch_binary_commands() {
    assert_eq!(vec![3, 3, 0x25, 0x01, 0xFF], SwitchBinary::set(3, true).to_vec());
    assert_eq!(vec![3, 3, 0x25, 0x01, 0x00], SwitchBinary::set(3, false).to_vec());
    assert_eq!(vec![3, 2, 0x25, 0x02], SwitchBinary::get(3).to_vec());
}

#[test]
fn switch_binary_report() {
    assert_eq!(Ok(true), SwitchBinary::report(vec![0, 3, 3, 0x25, 0x03, 0xFF]));
    assert_eq!(Ok(false), SwitchBinary::report(vec![0, 3, 3, 0x25, 0x03, 0x00]));
    assert_eq!(Ok(false), SwitchBinary::report(vec![0, 3, 3, 0x25, 0x03, 0x01]));
    assert_eq!(Ok(false), SwitchBinary::report(vec![0, 3, 3, 0x25, 0x03, 0xFE]));
    let kind = |msg: Vec<u8>| SwitchBinary::report(msg).unwrap_err().kind();
    assert_eq!(ErrorKind::UnknownZWave, kind(vec![0, 3, 3, 0x25, 0x03]));
    assert_eq!(ErrorKind::UnknownZWave, kind(vec![0, 3, 3, 0x25, 0x03, 0xFF, 0x00]));
    assert_eq!(ErrorKind::UnknownZWave, kind(vec![0, 3, 3, 0x20, 0x03, 0xFF]));
    assert_eq!(ErrorKind::UnknownZWave, kind(vec![0, 3, 3, 0x25, 0x01, 0xFF]));
}

#[test]
fn switch_multilevel_commands() {
    assert_eq!(vec![3, 3, 0x26, 0x01, 0x32], SwitchMultilevel::set(3, 0x32).to_vec());
    assert_eq!(vec![3, 2, 0x26, 0x02], SwitchMultilevel::get(3).to_vec());
}

#[test]
fn switch_multilevel_report() {
    assert_eq!(Ok(0x32), SwitchMultilevel::report(vec![0, 3, 3, 0x26, 0x03, 0x32]));
    // what a later version of the class adds is passed over
    assert_eq!(Ok(0x32), SwitchMultilevel::report(vec![0, 3, 5, 0x26, 0x03, 0x32, 0x63, 0x05]));
    let kind = |msg: Vec<u8>| SwitchMultilevel::report(msg).unwrap_err().kind();
    assert_eq!(ErrorKind::UnknownZWave, kind(vec![0, 3, 3, 0x26, 0x03]));
    assert_eq!(ErrorKind::UnknownZWave, kind(vec![0, 3, 3, 0x25, 0x03, 0x32]));
    assert_eq!(ErrorKind::UnknownZWave, kind(vec![0, 3, 3, 0x26, 0x02, 0x32]));
}

#[test]
fn node_info_command() {
    assert_eq!(vec![3, 2, 0x02, 0x02], NodeInfo::get(3).to_vec());
    assert_eq!(CommandClass::REQUEST_NODE_INFO, NodeInfo::get(3).cmd_class);
}

#[test]
fn node_info_report() {
    let (types, classes) = NodeInfo::report(vec![
        0x84, 0x03, 0x04, 0x10, 0x01, 0x00, 0x20, 0x25, 0x00, 0x1B, 0x32, 0xFF, 0x73,
    ])
    .unwrap();
    // 0x04 routing slave, 0x10 binary switch, 0x01 remote controller; 0x00 is passed over
    assert_eq!(
        vec![GenericType::RoutingSlave, GenericType::BinarySwitch, GenericType::RemoteController],
        types
    );
    // 0x00 is no operation, 0x1B and 0xFF are no class
    assert_eq!(
        vec![
            CommandClass::BASIC,
            CommandClass::SWITCH_BINARY,
            CommandClass::METER,
            CommandClass::POWER_LEVEL
        ],
        classes
    );
}

#[test]
fn node_info_report_edges() {
    // exactly six bytes: no class at all
    let (types, classes) = NodeInfo::report(vec![0, 0, 0x05, 0x00, 0xFF, 0x0A]).unwrap();
    assert_eq!(vec![GenericType::NonInteroperable], types);
    assert!(classes.is_empty());
    // five bytes are too few
    assert_eq!(
        ErrorKind::UnknownZWave,
        NodeInfo::report(vec![0, 0, 0x04, 0x10, 0x01]).unwrap_err().kind()
    );
    assert_eq!(ErrorKind::UnknownZWave, NodeInfo::report(vec![]).unwrap_err().kind());
}

#[test]
fn message_round_trip() {
    for len in [0usize, 1, 2, 100, 252, 253] {
        let data: Vec<u8> = (0..len).map(|i| (i * 7 % 256) as u8).collect();
        let message = Message::new(0x11, CommandClass::METER, 0x02, data.clone());
        let bytes = message.to_vec();
        assert_eq!(len + 4, bytes.len());
        assert_eq!(0x11, bytes[0]);
        assert_eq!(len + 2, bytes[1] as usize);
        assert_eq!(0x32, bytes[2]);
        assert_eq!(0x02, bytes[3]);
        assert_eq!(&data[..], &bytes[4..]);
        assert_eq!(message, Message::parse(&bytes).unwrap());
    }
}

#[test]
fn message_that_the_length_byte_cannot_hold() {
    let message = Message::new(1, CommandClass::BASIC, 1, vec![0; 254]);
    let bytes = message.to_vec();
    assert_eq!(0, bytes[1]);
    assert_eq!(ErrorKind::UnknownZWave, Message::parse(&bytes).unwrap_err().kind());
}

#[test]
fn what_is_no_message() {
    let kind = |bytes: &[u8]| Message::parse(bytes).unwrap_err().kind();
    assert_eq!(ErrorKind::UnknownZWave, kind(&[]));
    assert_eq!(ErrorKind::UnknownZWave, kind(&[3]));
    assert_eq!(ErrorKind::UnknownZWave, kind(&[3, 1, 0x20]));
    // the length byte is wrong
    assert_eq!(ErrorKind::UnknownZWave, kind(&[3, 3, 0x20, 0x02]));
    assert_eq!(ErrorKind::UnknownZWave, kind(&[3, 2, 0x20, 0x01, 0xFF]));
    // 0x1B is no class
    assert_eq!(ErrorKind::UnknownZWave, kind(&[3, 2, 0x1B, 0x02]));
    assert!(Message::parse(&[3, 2, 0x20, 0x02]).is_ok());
}

#[test]
fn message_as_text() {
    assert_eq!("0x3 0x3 0x20 0x1 0xFF ", Basic::set(3, 0xFF).to_hex_string());
    assert_eq!("0x3 0x2 0x20 0x2 ", Basic::get(3).to_hex_string());
}

#[test]
fn bytes_of_the_classes() {
    assert_eq!(0x00, CommandClass::NO_OPERATION.as_byte());
    assert_eq!(0x01, CommandClass::NODE_INFO.as_byte());
    assert_eq!(0x02, CommandClass::REQUEST_NODE_INFO.as_byte());
    assert_eq!(0x20, CommandClass::BASIC.as_byte());
    assert_eq!(0x25, CommandClass::SWITCH_BINARY.as_byte());
    assert_eq!(0x26, CommandClass::SWITCH_MULTILEVEL.as_byte());
    assert_eq!(0x32, CommandClass::METER.as_byte());
    assert_eq!(0x73, CommandClass::POWER_LEVEL.as_byte());
    assert_eq!(0xEF, CommandClass::MARK.as_byte());
    assert_eq!(0xF0, CommandClass::NON_INTEROPERABLE.as_byte());
    assert_eq!(None, CommandClass::from_byte(0x1B));
    assert_eq!(None, CommandClass::from_byte(0xFF));
    let mut known = 0;
    for byte in 0..=255u8 {
        if let Some(class) = CommandClass::from_byte(byte) {
            assert_eq!(byte, class.as_byte());
            known += 1;
        }
    }
    assert_eq!(113, known);
}

#[test]
fn bytes_of_the_generic_types() {
    assert_eq!(0x00, GenericType::Unknown.as_byte());
    assert_eq!(0x08, GenericType::Thermostat.as_byte());
    assert_eq!(0x09, GenericType::WindowCovering.as_byte());
    assert_eq!(0x10, GenericType::BinarySwitch.as_byte());
    assert_eq!(0x31, GenericType::Meter.as_byte());
    assert_eq!(0xa1, GenericType::AlarmSensor.as_byte());
    assert_eq!(0xFF, GenericType::NonInteroperable.as_byte());
    assert_eq!(None, GenericType::from_byte(0x05));
    assert_eq!(GenericType::Unknown, GenericType::from_byte_or_unknown(0x05));
    assert_eq!(GenericType::Unknown, GenericType::from_byte_or_unknown(0x00));
    assert_eq!(GenericType::Meter, GenericType::from_byte_or_unknown(0x31));
    let mut known = 0;
    for byte in 0..=255u8 {
        if let Some(typ) = GenericType::from_byte(byte) {
            assert_eq!(byte, typ.as_byte());
            assert_eq!(typ, GenericType::from_byte_or_unknown(byte));
            known += 1;
        }
    }
    assert_eq!(28, known);
}
