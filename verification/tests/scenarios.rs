use rzw::basic::{Controller, Node};
use rzw::cmds::powerlevel::{PowerLevelOperationStatus, PowerLevelStatus};
use rzw::defs::{
    CommandClass, GenericType, MeterData, MeterValue, SerialMessage, SerialMessageFunction,
    SerialMessageType,
};
use rzw::driver::{Action, Driver, Event, Reply, SerialDriver};
use rzw::error::{Error, ErrorKind, IoErrorKind};
use std::collections::VecDeque;

/// A byte stream that follows a script: each frame that the host writes sets
/// free the next batch of bytes, and a read that finds no byte times out.
struct FakeStream {
    input: VecDeque<u8>,
    replies: VecDeque<Vec<u8>>,
    written: Vec<Vec<u8>>,
}

impl FakeStream {
    fn new(replies: Vec<Vec<u8>>) -> Self {
        FakeStream { input: VecDeque::new(), replies: replies.into(), written: Vec::new() }
    }

    /// The frames that the host wrote, the single header bytes left out.
    fn frames(&self) -> Vec<Vec<u8>> {
        self.written.iter().filter(|bytes| bytes.len() > 1).cloned().collect()
    }

    /// The single header bytes that the host wrote.
    fn answers(&self) -> Vec<u8> {
        self.written.iter().filter(|bytes| bytes.len() == 1).map(|bytes| bytes[0]).collect()
    }
}

fn timed_out() -> Error {
    Error::from_io(IoErrorKind::TimedOut, "timed out")
}

/// Runs an operation of the driver against its stream until it is done.
fn run(driver: &mut SerialDriver<FakeStream>, first: Action) -> Result<Reply, Error> {
    let mut action = first;
    loop {
        let event = match action {
            Action::Read => match driver.device.input.pop_front() {
                Some(byte) => Event::Byte(byte),
                None => Event::Failed(timed_out()),
            },
            Action::Write(bytes) => {
                if bytes.len() > 1 {
                    if let Some(reply) = driver.device.replies.pop_front() {
                        driver.device.input.extend(reply);
                    }
                }
                driver.device.written.push(bytes);
                Event::Written
            }
            Action::Done(result) => return result,
        };
        action = driver.resume(event);
    }
}

/// The driver behind the trait of the layers above.
struct Link(SerialDriver<FakeStream>);

impl Link {
    fn new(replies: Vec<Vec<u8>>) -> Self {
        Link(SerialDriver::new(FakeStream::new(replies)))
    }
}

fn unexpected() -> Error {
    Error::new(ErrorKind::NotImplemented, "the reply is of another operation")
}

impl Driver for Link {
    fn write(&mut self, message: Vec<u8>) -> Result<u8, Error> {
        let first = self.0.write(message);
        match run(&mut self.0, first)? {
            Reply::MessageId(id) => Ok(id),
            _ => Err(unexpected()),
        }
    }

    fn read(&mut self) -> Result<Vec<u8>, Error> {
        let first = self.0.read();
        match run(&mut self.0, first)? {
            Reply::Payload(payload) => Ok(payload),
            _ => Err(unexpected()),
        }
    }

    fn get_node_ids(&mut self) -> Result<Vec<u8>, Error> {
        let first = self.0.get_node_ids();
        match run(&mut self.0, first)? {
            Reply::NodeIds(ids) => Ok(ids),
            _ => Err(unexpected()),
        }
    }

    fn get_node_generic_class(&mut self, node_id: u8) -> Result<GenericType, Error> {
        let first = self.0.get_node_generic_class(node_id);
        match run(&mut self.0, first)? {
            Reply::GenericClass(typ) => Ok(typ),
            _ => Err(unexpected()),
        }
    }
}

fn frame(typ: SerialMessageType, func: SerialMessageFunction, data: Vec<u8>) -> Vec<u8> {
    SerialMessage::new(typ, func, data).get_command()
}

/// `ACK`, then the response that says that the controller took the command.
fn accepted() -> Vec<u8> {
    vec![0x06, 0x01, 0x04, 0x01, 0x13, 0x01, 0xE8]
}

/// `ACK`, the acceptance, and a request that carries the report `payload`.
fn accepted_then_report(payload: Vec<u8>) -> Vec<u8> {
    let mut bytes = accepted();
    bytes.extend(frame(
        SerialMessageType::Request,
        SerialMessageFunction::ApplicationCommandHandler,
        payload,
    ));
    bytes
}

fn xor_from_length_byte(bytes: &[u8]) -> u8 {
    bytes[1..].iter().fold(0xFF, |sum, byte| sum ^ byte)
}

fn bitmap(ids: &[u8]) -> Vec<u8> {
    let mut payload = vec![0u8; 34];
    payload[0] = 0x05;
    payload[1] = 0x00;
    payload[2] = 0x1D;
    for id in ids {
        let bit = (*id as usize) - 1;
        payload[3 + bit / 8] |= 1 << (bit % 8);
    }
    payload
}

fn discovery_reply(ids: &[u8]) -> Vec<u8> {
    let mut bytes = vec![0x06];
    bytes.extend(frame(SerialMessageType::Response, SerialMessageFunction::DiscoveryNodes, bitmap(ids)));
    bytes
}

#[test]
fn basic_set_is_sent_and_accepted() {
    let mut link = Link::new(vec![accepted()]);
    let node = Node::unknown(3);
    let id = node.basic_set(&mut link, 0xFF).unwrap();
    assert_eq!(1, id);
    let frames = link.0.device.frames();
    assert_eq!(1, frames.len());
    let sent = &frames[0];
    assert_eq!(
        &[0x01, 0x0A, 0x00, 0x13, 0x03, 0x03, 0x20, 0x01, 0xFF, 0x04, id][..],
        &sent[..11]
    );
    assert_eq!(12, sent.len());
    assert_eq!(0, xor_from_length_byte(sent));
    // the response was answered with ACK
    assert_eq!(vec![0x06], link.0.device.answers());
}

#[test]
fn switch_binary_get_reads_the_report() {
    let mut link = Link::new(vec![accepted_then_report(vec![0x00, 0x03, 0x03, 0x25, 0x03, 0xFF])]);
    let node = Node::unknown(3);
    assert_eq!(Ok(true), node.switch_binary_get(&mut link));
    let frames = link.0.device.frames();
    assert_eq!(1, frames.len());
    assert_eq!(&[0x01, 0x09, 0x00, 0x13, 0x03, 0x02, 0x25, 0x02, 0x04, 0x01][..], &frames[0][..10]);
    // the response and the report were both answered with ACK
    assert_eq!(vec![0x06, 0x06], link.0.device.answers());
}

#[test]
fn switch_binary_get_of_a_switch_that_is_off() {
    let mut link = Link::new(vec![accepted_then_report(vec![0x00, 0x03, 0x03, 0x25, 0x03, 0x00])]);
    assert_eq!(Ok(false), Node::unknown(3).switch_binary_get(&mut link));
    let mut link = Link::new(vec![accepted_then_report(vec![0x00, 0x03, 0x03, 0x25, 0x03, 0xFE])]);
    assert_eq!(Ok(false), Node::unknown(3).switch_binary_get(&mut link));
}

#[test]
fn meter_get_reads_electric_kwh() {
    let report = vec![0x00, 0x04, 0x06, 0x32, 0x02, 0x01, 0b001_00_010, 0x00, 0x7B];
    let mut link = Link::new(vec![accepted_then_report(report)]);
    let data = Node::unknown(4).meter_get(&mut link).unwrap();
    assert_eq!(MeterData::Electric_kWh(MeterValue { mantissa: 123, divisor: 10 }), data);
    assert_eq!(12.3, data.value().mantissa as f64 / data.value().divisor as f64);
}

#[test]
fn meter_get_v2_reads_both_readings() {
    let report =
        vec![0x00, 0x04, 0x0A, 0x32, 0x02, 0x21, 0b010_10_010, 0x01, 0x00, 0x00, 0x3C, 0x00, 0xC8];
    let mut link = Link::new(vec![accepted_then_report(report)]);
    let unit = MeterData::Electric_W(MeterValue { mantissa: 0, divisor: 1 });
    let (previous, delta, current) = Node::unknown(4).meter_get_v2(&mut link, unit).unwrap();
    assert_eq!(MeterData::Electric_W(MeterValue { mantissa: 200, divisor: 100 }), previous);
    assert_eq!(60, delta);
    assert_eq!(MeterData::Electric_W(MeterValue { mantissa: 256, divisor: 100 }), current);
    // the unit asked for stands in bits three and four
    assert_eq!(&[0x04, 0x03, 0x32, 0x01, 0x10][..], &link.0.device.frames()[0][4..9]);
}

#[test]
fn powerlevel_test_node_get_reads_the_result() {
    let report = vec![0x00, 0x03, 0x06, 0x73, 0x06, 0x04, 0x01, 0x00, 0x0A];
    let mut link = Link::new(vec![accepted_then_report(report)]);
    assert_eq!(
        Ok((0x04, PowerLevelOperationStatus::TestSuccess, 10)),
        Node::unknown(3).powerlevel_test_node_get(&mut link)
    );
}

#[test]
fn powerlevel_get_and_set() {
    let report = vec![0x00, 0x03, 0x04, 0x73, 0x03, 0x02, 0x1E];
    let mut link = Link::new(vec![accepted(), accepted_then_report(report), accepted()]);
    let node = Node::unknown(3);
    assert_eq!(Ok(1), node.powerlevel_set(&mut link, PowerLevelStatus::minus2dBm, 30));
    assert_eq!(Ok((PowerLevelStatus::minus2dBm, 30)), node.powerlevel_get(&mut link));
    assert_eq!(
        Ok(3),
        node.powerlevel_test_node_set(&mut link, 9, PowerLevelStatus::NormalPower, 0x0102)
    );
    let frames = link.0.device.frames();
    assert_eq!(&[0x03, 0x04, 0x73, 0x01, 0x02, 0x1E, 0x04, 0x01][..], &frames[0][4..12]);
    assert_eq!(&[0x03, 0x02, 0x73, 0x02, 0x04, 0x02][..], &frames[1][4..10]);
    assert_eq!(&[0x03, 0x06, 0x73, 0x04, 0x09, 0x00, 0x01, 0x02, 0x04, 0x03][..], &frames[2][4..14]);
}

#[test]
fn basic_get_reads_the_value() {
    let mut link = Link::new(vec![accepted_then_report(vec![0x00, 0x03, 0x03, 0x20, 0x03, 0x63])]);
    assert_eq!(Ok(0x63), Node::unknown(3).basic_get(&mut link));
}

#[test]
fn discover_nodes_of_one_node() {
    let mut link = Link::new(vec![discovery_reply(&[5])]);
    assert_eq!(Ok(vec![5]), link.get_node_ids());
    assert_eq!(vec![vec![0x01, 0x03, 0x00, 0x02, 0xFE]], link.0.device.frames());
}

#[test]
fn discover_nodes_in_rising_order() {
    let mut link = Link::new(vec![discovery_reply(&[3, 1, 2])]);
    assert_eq!(Ok(vec![1, 2, 3]), link.get_node_ids());
    let mut link = Link::new(vec![discovery_reply(&[232, 8, 1, 9, 16, 100])]);
    assert_eq!(Ok(vec![1, 8, 9, 16, 100, 232]), link.get_node_ids());
    let mut link = Link::new(vec![discovery_reply(&[])]);
    assert_eq!(Ok(vec![]), link.get_node_ids());
    let all: Vec<u8> = (1..=232).collect();
    let mut link = Link::new(vec![discovery_reply(&all)]);
    assert_eq!(Ok(all), link.get_node_ids());
}

#[test]
fn a_write_that_is_cancelled_keeps_the_id() {
    // CAN in place of ACK, then a run that goes well
    let mut link = Link::new(vec![vec![0x18], accepted(), accepted()]);
    let node = Node::unknown(3);
    let failed = node.basic_set(&mut link, 0xFF).unwrap_err();
    assert_eq!(ErrorKind::Io(IoErrorKind::InvalidData), failed.kind());
    // the id was not used up: the next command is sent under the same id
    assert_eq!(Ok(1), node.basic_set(&mut link, 0xFF));
    assert_eq!(Ok(2), node.basic_set(&mut link, 0x00));
    let frames = link.0.device.frames();
    assert_eq!(3, frames.len());
    assert_eq!(1, frames[0][10]);
    assert_eq!(1, frames[1][10]);
    assert_eq!(2, frames[2][10]);
}

#[test]
fn a_write_that_is_refused() {
    // NAK in place of ACK
    let mut link = Link::new(vec![vec![0x15]]);
    let failed = link.write(vec![3, 3, 0x20, 1, 0xFF]).unwrap_err();
    assert_eq!(ErrorKind::Io(IoErrorKind::InvalidData), failed.kind());
    // ACK, but the controller does not take the command
    let mut link = Link::new(vec![vec![0x06, 0x01, 0x04, 0x01, 0x13, 0x00, 0xE9]]);
    let failed = link.write(vec![3, 3, 0x20, 1, 0xFF]).unwrap_err();
    assert_eq!(ErrorKind::Io(IoErrorKind::InvalidData), failed.kind());
    // ACK, but the response is to another function
    let mut reply = vec![0x06];
    reply.extend(frame(SerialMessageType::Response, SerialMessageFunction::GetVersion, vec![0x01]));
    let mut link = Link::new(vec![reply]);
    let failed = link.write(vec![3, 3, 0x20, 1, 0xFF]).unwrap_err();
    assert_eq!(ErrorKind::Io(IoErrorKind::InvalidData), failed.kind());
    // ACK, but a request in place of the response
    let mut reply = vec![0x06];
    reply.extend(frame(SerialMessageType::Request, SerialMessageFunction::SendData, vec![0x01]));
    let mut link = Link::new(vec![reply]);
    let failed = link.write(vec![3, 3, 0x20, 1, 0xFF]).unwrap_err();
    assert_eq!(ErrorKind::Io(IoErrorKind::InvalidData), failed.kind());
}

#[test]
fn a_write_without_an_answer_times_out() {
    let mut link = Link::new(vec![]);
    let failed = link.write(vec![3, 3, 0x20, 1, 0xFF]).unwrap_err();
    assert_eq!(ErrorKind::Io(IoErrorKind::TimedOut), failed.kind());
    // ACK, and then nothing
    let mut link = Link::new(vec![vec![0x06]]);
    let failed = link.write(vec![3, 3, 0x20, 1, 0xFF]).unwrap_err();
    assert_eq!(ErrorKind::Io(IoErrorKind::TimedOut), failed.kind());
    assert_eq!(Ok(1), {
        link.0.device.replies.push_back(accepted());
        link.write(vec![3, 3, 0x20, 1, 0xFF])
    });
}

#[test]
fn a_broken_frame_is_answered_with_nak() {
    // ACK, then a response with a wrong checksum
    let mut link = Link::new(vec![vec![0x06, 0x01, 0x04, 0x01, 0x13, 0x01, 0xE9]]);
    let failed = link.write(vec![3, 3, 0x20, 1, 0xFF]).unwrap_err();
    assert_eq!(ErrorKind::UnknownZWave, failed.kind());
    assert_eq!(vec![0x15], link.0.device.answers());
}

#[test]
fn an_unknown_header_is_an_error() {
    let mut link = Link::new(vec![vec![0x42]]);
    let failed = link.write(vec![3, 3, 0x20, 1, 0xFF]).unwrap_err();
    assert_eq!(ErrorKind::UnknownZWave, failed.kind());
    assert!(link.0.device.answers().is_empty());
}

#[test]
fn read_without_a_queued_frame() {
    let mut link = Link::new(vec![]);
    let failed = link.read().unwrap_err();
    assert_eq!(ErrorKind::Io(IoErrorKind::Other), failed.kind());
}

#[test]
fn unsolicited_frames_are_first_in_first_out() {
    let mut link = Link::new(vec![]);
    let first = vec![0x00, 0x03, 0x03, 0x20, 0x03, 0x01];
    let second = vec![0x00, 0x04, 0x03, 0x20, 0x03, 0x02];
    let third = vec![0x00, 0x05, 0x03, 0x20, 0x03, 0x03];
    for payload in [&first, &second] {
        link.0.device.input.extend(frame(
            SerialMessageType::Request,
            SerialMessageFunction::ApplicationCommandHandler,
            payload.clone(),
        ));
    }
    // a response and an ACK between them are not queued
    link.0.device.input.extend(frame(
        SerialMessageType::Response,
        SerialMessageFunction::GetVersion,
        vec![0x09],
    ));
    link.0.device.input.push_back(0x06);
    assert_eq!(Ok(first.clone()), link.read());
    // the queue outlives a write, and what arrives before it is queued behind
    link.0.device.input.extend(frame(
        SerialMessageType::Request,
        SerialMessageFunction::ApplicationCommandHandler,
        third.clone(),
    ));
    link.0.device.replies.push_back(accepted());
    assert_eq!(Ok(1), link.write(vec![3, 2, 0x20, 2]));
    let queued: Vec<Vec<u8>> = link.0.get_messages().into_iter().map(|m| m.data).collect();
    assert_eq!(vec![second.clone(), third.clone()], queued);
    assert_eq!(Ok(second), link.read());
    assert_eq!(Ok(third), link.read());
    assert_eq!(ErrorKind::Io(IoErrorKind::Other), link.read().unwrap_err().kind());
    // three requests and one response were answered with ACK, and the write's response
    assert_eq!(vec![0x06; 5], link.0.device.answers());
}

#[test]
fn node_protocol_info() {
    let mut reply = vec![0x06];
    reply.extend(frame(
        SerialMessageType::Response,
        SerialMessageFunction::GetNodeProtocolInfo,
        vec![0xD3, 0x9C, 0x00, 0x04, 0x10, 0x01],
    ));
    let mut link = Link::new(vec![reply]);
    assert_eq!(Ok(GenericType::BinarySwitch), link.get_node_generic_class(3));
    assert_eq!(vec![vec![0x01, 0x04, 0x00, 0x41, 0x03, 0xFF ^ 0x04 ^ 0x41 ^ 0x03]], link.0.device.frames());

    // a type that is not known
    let mut reply = vec![0x06];
    reply.extend(frame(
        SerialMessageType::Response,
        SerialMessageFunction::GetNodeProtocolInfo,
        vec![0xD3, 0x9C, 0x00, 0x04, 0x05, 0x01],
    ));
    let mut link = Link::new(vec![reply]);
    assert_eq!(Ok(GenericType::Unknown), link.get_node_generic_class(3));

    // a payload of another length
    let mut reply = vec![0x06];
    reply.extend(frame(
        SerialMessageType::Response,
        SerialMessageFunction::GetNodeProtocolInfo,
        vec![0xD3, 0x9C, 0x00, 0x04, 0x10],
    ));
    let mut link = Link::new(vec![reply]);
    assert_eq!(ErrorKind::UnknownZWave, link.get_node_generic_class(3).unwrap_err().kind());
}

#[test]
fn node_ids_of_a_payload_that_is_no_list() {
    let mut wrong_marker = bitmap(&[1]);
    wrong_marker[2] = 0x1C;
    let mut reply = vec![0x06];
    reply.extend(frame(SerialMessageType::Response, SerialMessageFunction::DiscoveryNodes, wrong_marker));
    let mut link = Link::new(vec![reply]);
    assert_eq!(ErrorKind::UnknownZWave, link.get_node_ids().unwrap_err().kind());

    let mut too_short = bitmap(&[1]);
    too_short.pop();
    let mut reply = vec![0x06];
    reply.extend(frame(SerialMessageType::Response, SerialMessageFunction::DiscoveryNodes, too_short));
    let mut link = Link::new(vec![reply]);
    assert_eq!(ErrorKind::UnknownZWave, link.get_node_ids().unwrap_err().kind());

    // no ACK before the response
    let mut link = Link::new(vec![frame(
        SerialMessageType::Response,
        SerialMessageFunction::DiscoveryNodes,
        bitmap(&[1]),
    )]);
    assert_eq!(ErrorKind::Io(IoErrorKind::InvalidData), link.get_node_ids().unwrap_err().kind());
}

#[test]
fn an_event_without_an_operation_is_refused() {
    let mut driver = SerialDriver::new(FakeStream::new(vec![]));
    for event in [Event::Byte(0x06), Event::Written, Event::Failed(timed_out())] {
        match driver.resume(event) {
            Action::Done(Err(e)) => assert_eq!(ErrorKind::InvalidInput, e.kind()),
            other => panic!("unexpected {:?}", other),
        }
    }
}

#[test]
fn a_failure_of_the_stream_ends_the_operation() {
    let mut driver = SerialDriver::new(FakeStream::new(vec![]));
    assert!(matches!(driver.write(vec![3, 2, 0x20, 2]), Action::Read));
    let broken = Error::from_io(IoErrorKind::BrokenPipe, "broken pipe");
    match driver.resume(Event::Failed(broken.clone())) {
        Action::Done(Err(e)) => assert_eq!(broken, e),
        other => panic!("unexpected {:?}", other),
    }
    // a write that fails
    assert!(matches!(driver.write(vec![3, 2, 0x20, 2]), Action::Read));
    for _ in 0..2 {
        assert!(matches!(driver.resume(Event::Failed(timed_out())), Action::Read));
    }
    assert!(matches!(driver.resume(Event::Failed(timed_out())), Action::Write(_)));
    match driver.resume(Event::Failed(broken.clone())) {
        Action::Done(Err(e)) => assert_eq!(broken, e),
        other => panic!("unexpected {:?}", other),
    }
    // and the driver is free again
    assert_eq!(1, rzw::driver::serial::id_after(0));
    assert!(matches!(driver.read(), Action::Read));
}

#[test]
fn a_timeout_in_a_frame_starts_the_frame_again() {
    let mut driver = SerialDriver::new(FakeStream::new(vec![]));
    assert!(matches!(driver.read(), Action::Read));
    // half a frame, then a timeout: the bytes are given up
    for byte in [0x01, 0x04, 0x00] {
        assert!(matches!(driver.resume(Event::Byte(byte)), Action::Read));
    }
    assert!(matches!(driver.resume(Event::Failed(timed_out())), Action::Read));
    // a whole request
    let bytes = frame(
        SerialMessageType::Request,
        SerialMessageFunction::ApplicationCommandHandler,
        vec![0x09],
    );
    let mut action = Action::Read;
    for byte in &bytes {
        assert!(matches!(action, Action::Read));
        action = driver.resume(Event::Byte(*byte));
    }
    match action {
        Action::Write(answer) => assert_eq!(vec![0x06], answer),
        other => panic!("unexpected {:?}", other),
    }
    assert!(matches!(driver.resume(Event::Written), Action::Read));
    // the drain ends after three reads in a row that time out
    assert!(matches!(driver.resume(Event::Failed(timed_out())), Action::Read));
    assert!(matches!(driver.resume(Event::Failed(timed_out())), Action::Read));
    match driver.resume(Event::Failed(timed_out())) {
        Action::Done(Ok(Reply::Payload(payload))) => assert_eq!(vec![0x09], payload),
        other => panic!("unexpected {:?}", other),
    }
}

#[test]
fn controller_finds_its_nodes() {
    // the list of nodes, then for each node the answer to the question for its
    // node information: node 2 answers, node 7 does not
    let info = vec![0x84, 0x02, 0x04, 0x10, 0x01, 0x00, 0x20, 0x25, 0x32, 0x00, 0x02, 0x73];
    let link = Link::new(vec![discovery_reply(&[2, 7]), accepted_then_report(info), vec![0x15]]);
    let controller = Controller::new(link).unwrap();
    assert_eq!(vec![2, 7], controller.nodes());
    let node = controller.node(2).unwrap();
    assert_eq!(2, node.get_id());
    assert_eq!(
        vec![
            CommandClass::BASIC,
            CommandClass::SWITCH_BINARY,
            CommandClass::METER,
            CommandClass::REQUEST_NODE_INFO,
            CommandClass::POWER_LEVEL
        ],
        node.get_commands()
    );
    let node = controller.node(7).unwrap();
    assert_eq!(7, node.get_id());
    assert!(node.get_commands().is_empty());
    assert_eq!(GenericType::Unknown, node.get_generic_type());
    assert!(controller.node(3).is_none());
    assert_eq!(2, controller.get_nodes().len());
}

#[test]
fn controller_without_a_list_of_nodes() {
    let link = Link::new(vec![vec![0x18]]);
    match Controller::new(link) {
        Err(e) => assert_eq!(ErrorKind::Io(IoErrorKind::InvalidData), e.kind()),
        Ok(_) => panic!("a controller without a list of nodes"),
    }
}

#[test]
fn controller_finds_its_nodes_again() {
    let link = Link::new(vec![discovery_reply(&[2]), vec![0x15], discovery_reply(&[4, 5])]);
    let mut controller = Controller::new(link).unwrap();
    assert_eq!(vec![2], controller.nodes());
    assert_eq!(Ok(()), controller.discover_nodes());
    assert_eq!(vec![4, 5], controller.nodes());
    // where the driver cannot give the list, no node is known
    let failed = controller.discover_nodes().unwrap_err();
    assert_eq!(ErrorKind::Io(IoErrorKind::TimedOut), failed.kind());
    assert!(controller.nodes().is_empty());
}

#[test]
fn node_operations_through_the_controller() {
    let link = Link::new(vec![
        discovery_reply(&[3]),
        vec![0x15],
        accepted(),
        accepted_then_report(vec![0x00, 0x03, 0x03, 0x20, 0x03, 0xFF]),
    ]);
    let mut controller = Controller::new(link).unwrap();
    let node = controller.node(3).unwrap();
    assert_eq!(Ok(1), node.basic_set(controller.get_driver(), 0xFF));
    assert_eq!(Ok(0xFF), node.basic_get(controller.get_driver()));
}

#[test]
fn node_discovers_its_type() {
    let mut reply = vec![0x06];
    reply.extend(frame(
        SerialMessageType::Response,
        SerialMessageFunction::GetNodeProtocolInfo,
        vec![0xD3, 0x9C, 0x00, 0x04, 0x31, 0x01],
    ));
    let mut link = Link::new(vec![reply]);
    let mut node = Node::unknown(3);
    node.discover_type(&mut link);
    assert_eq!(GenericType::Meter, node.get_generic_type());
    // where the controller does not answer, the type is unknown again
    node.discover_type(&mut link);
    assert_eq!(GenericType::Unknown, node.get_generic_type());
}
