use rzw::basic::Node;
use rzw::cmds::powerlevel::PowerLevelStatus;
use rzw::defs::{MeterData, MeterValue};

#[test]
fn commands_of_a_node() {
    let node = Node::unknown(3);
    assert_eq!(vec![3, 2, 0x02, 0x02], node.node_info_get_command());
    assert_eq!(vec![3, 3, 0x20, 0x01, 0xFF], node.basic_set_command(0xFF));
    assert_eq!(vec![3, 2, 0x20, 0x02], node.basic_get_command());
    assert_eq!(vec![3, 3, 0x25, 0x01, 0xFF], node.switch_binary_set_command(true));
    assert_eq!(vec![3, 3, 0x25, 0x01, 0x00], node.switch_binary_set_command(false));
    assert_eq!(vec![3, 2, 0x25, 0x02], node.switch_binary_get_command());
    assert_eq!(
        vec![3, 4, 0x73, 0x01, 0x02, 30],
        node.powerlevel_set_command(PowerLevelStatus::minus2dBm, 30)
    );
    assert_eq!(vec![3, 2, 0x73, 0x02], node.powerlevel_get_command());
    assert_eq!(
        vec![3, 6, 0x73, 0x04, 9, 0x00, 0x01, 0x02],
        node.powerlevel_test_node_set_command(9, PowerLevelStatus::NormalPower, 0x0102)
    );
    assert_eq!(vec![3, 2, 0x73, 0x05], node.powerlevel_test_node_get_command());
    assert_eq!(vec![3, 2, 0x32, 0x01], node.meter_get_command());
    let none = MeterValue { mantissa: 0, divisor: 1 };
    assert_eq!(
        vec![3, 3, 0x32, 0x01, 0x10],
        node.meter_get_v2_command(MeterData::Water_Gallons(none))
    );
    assert_eq!(vec![3, 3, 0x32, 0x01, 0x18], node.meter_get_v2_command(MeterData::Gas_PulseCount(none)));
}

#[test]
fn commands_carry_the_id_of_their_node() {
    for id in [1u8, 2, 100, 232] {
        let node = Node::unknown(id);
        assert_eq!(id, node.basic_get_command()[0]);
        assert_eq!(id, node.basic_set_command(1)[0]);
        assert_eq!(id, node.meter_get_command()[0]);
        assert_eq!(id, node.node_info_get_command()[0]);
    }
}
