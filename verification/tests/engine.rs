use rzw::defs::{
    GenericType, SerialMessage, SerialMessageFunction, SerialMessageHeader, SerialMessageType,
};
use rzw::driver::protocol::Tries;
use rzw::driver::serial::{decode_generic_class, decode_node_ids, is_acceptance, send_data_frame};
use rzw::driver::{Action, Event, Reply, SerialDriver};
use rzw::error::{Error, ErrorKind, IoErrorKind};

fn bitmap(ids: &[u8]) -> Vec<u8> {
    let mut payload = vec![0u8; 34];
    payload[2] = 0x1D;
    for id in ids {
        let bit = (*id as usize) - 1;
        payload[3 + bit / 8] |= 1 << (bit % 8);
    }
    payload
}

#[test]
fn bitmap_decode() {
    let mut payload = vec![0u8; 34];
    payload[2] = 0x1D;
    payload[3] = 0b0000_0111;
    assert_eq!(Ok(vec![1, 2, 3]), decode_node_ids(&payload));
}

#[test]
fn bitmap_decode_of_every_single_node() {
    for id in 1..=232u8 {
        assert_eq!(Ok(vec![id]), decode_node_ids(&bitmap(&[id])));
    }
}

#[test]
fn bitmap_decode_reads_the_highest_bit_and_the_last_byte() {
    let mut payload = vec![0u8; 34];
    payload[2] = 0x1D;
    payload[3] = 0b1000_0000;
    assert_eq!(Ok(vec![8]), decode_node_ids(&payload));
    payload[3] = 0;
    payload[31] = 0b1000_0001;
    assert_eq!(Ok(vec![225, 232]), decode_node_ids(&payload));
    // what stands around the list is passed over
    payload[0] = 0xFF;
    payload[1] = 0xFF;
    payload[32] = 0xFF;
    payload[33] = 0xFF;
    assert_eq!(Ok(vec![225, 232]), decode_node_ids(&payload));
}

#[test]
fn bitmap_decode_refusals() {
    let kind = |payload: &[u8]| decode_node_ids(payload).unwrap_err().kind();
    assert_eq!(ErrorKind::UnknownZWave, kind(&[]));
    assert_eq!(ErrorKind::UnknownZWave, kind(&bitmap(&[1])[..33]));
    let mut longer = bitmap(&[1]);
    longer.push(0);
    assert_eq!(ErrorKind::UnknownZWave, kind(&longer));
    let mut unmarked = bitmap(&[1]);
    unmarked[2] = 0x00;
    assert_eq!(ErrorKind::UnknownZWave, kind(&unmarked));
}

#[test]
fn generic_class_decode() {
    assert_eq!(Ok(GenericType::BinarySwitch), decode_generic_class(&[0, 0, 0, 0, 0x10, 0]));
    assert_eq!(Ok(GenericType::Unknown), decode_generic_class(&[0, 0, 0, 0, 0x05, 0]));
    assert_eq!(
        ErrorKind::UnknownZWave,
        decode_generic_class(&[0, 0, 0, 0, 0x10]).unwrap_err().kind()
    );
    assert_eq!(
        ErrorKind::UnknownZWave,
        decode_generic_class(&[0, 0, 0, 0, 0x10, 0, 0]).unwrap_err().kind()
    );
}

#[test]
fn send_data_frames() {
    let frame = send_data_frame(vec![3, 3, 0x20, 1, 0xFF], 7);
    assert_eq!(SerialMessageHeader::SOF, frame.header);
    assert_eq!(SerialMessageType::Request, frame.typ);
    assert_eq!(SerialMessageFunction::SendData, frame.func);
    assert_eq!(vec![3, 3, 0x20, 1, 0xFF, 0x04, 7], frame.data);
}

#[test]
fn acceptance() {
    let response = |typ, func, data| SerialMessage::new(typ, func, data);
    assert!(is_acceptance(&response(
        SerialMessageType::Response,
        SerialMessageFunction::SendData,
        vec![0x01]
    )));
    assert!(is_acceptance(&response(
        SerialMessageType::Response,
        SerialMessageFunction::SendData,
        vec![0x01, 0x55]
    )));
    assert!(!is_acceptance(&response(
        SerialMessageType::Response,
        SerialMessageFunction::SendData,
        vec![]
    )));
    assert!(!is_acceptance(&response(
        SerialMessageType::Response,
        SerialMessageFunction::SendData,
        vec![0x00]
    )));
    assert!(!is_acceptance(&response(
        SerialMessageType::Request,
        SerialMessageFunction::SendData,
        vec![0x01]
    )));
    assert!(!is_acceptance(&response(
        SerialMessageType::Response,
        SerialMessageFunction::SendDataMulti,
        vec![0x01]
    )));
    assert!(!is_acceptance(&SerialMessage::new_header(SerialMessageHeader::ACK)));
}

fn timed_out() -> Event {
    Event::Failed(Error::from_io(IoErrorKind::TimedOut, "timed out"))
}

/// Hands the bytes to the driver one by one and returns what it says to the
/// last of them; to all before it must say that it reads on.
fn feed(driver: &mut SerialDriver<()>, bytes: &[u8]) -> Action {
    let (last, before) = bytes.split_last().unwrap();
    for byte in before {
        assert!(matches!(driver.resume(Event::Byte(*byte)), Action::Read));
    }
    driver.resume(Event::Byte(*last))
}

#[test]
fn frames_are_put_together_byte_by_byte() {
    let mut driver = SerialDriver::new(());
    assert!(matches!(driver.read(), Action::Read));
    // a header-only frame is whole with its one byte, and is not answered
    assert!(matches!(feed(&mut driver, &[0x06]), Action::Read));
    // a structured frame is whole with its checksum, and answered with ACK
    match feed(&mut driver, &[0x01, 0x04, 0x00, 0x13, 0x01, 0xE9]) {
        Action::Write(answer) => assert_eq!(vec![0x06], answer),
        other => panic!("unexpected {:?}", other),
    }
    assert!(matches!(driver.resume(Event::Written), Action::Read));
    assert_eq!(1, driver.get_messages().len());
    // one with a wrong checksum is answered with NAK, and ends the operation
    match feed(&mut driver, &[0x01, 0x04, 0x00, 0x13, 0x01, 0xE8]) {
        Action::Write(answer) => assert_eq!(vec![0x15], answer),
        other => panic!("unexpected {:?}", other),
    }
    match driver.resume(Event::Written) {
        Action::Done(Err(e)) => assert_eq!(ErrorKind::UnknownZWave, e.kind()),
        other => panic!("unexpected {:?}", other),
    }
    // the queue is still there
    assert_eq!(1, driver.get_messages().len());
}

#[test]
fn a_frame_without_a_body_is_answered_with_nak() {
    let mut driver = SerialDriver::new(());
    assert!(matches!(driver.read(), Action::Read));
    // a length byte of zero ends the frame at once: too short
    match feed(&mut driver, &[0x01, 0x00]) {
        Action::Write(answer) => assert_eq!(vec![0x15], answer),
        other => panic!("unexpected {:?}", other),
    }
}

#[test]
fn an_unknown_header_ends_the_operation() {
    let mut driver = SerialDriver::new(());
    assert!(matches!(driver.read(), Action::Read));
    match feed(&mut driver, &[0x42]) {
        Action::Done(Err(e)) => assert_eq!(ErrorKind::UnknownZWave, e.kind()),
        other => panic!("unexpected {:?}", other),
    }
}

#[test]
fn the_longest_frame_is_read_whole() {
    let frame = SerialMessage::new(
        SerialMessageType::Request,
        SerialMessageFunction::ApplicationCommandHandler,
        vec![0xAB; 252],
    );
    let bytes = frame.get_command();
    assert_eq!(257, bytes.len());
    let mut driver = SerialDriver::new(());
    assert!(matches!(driver.read(), Action::Read));
    match feed(&mut driver, &bytes) {
        Action::Write(answer) => assert_eq!(vec![0x06], answer),
        other => panic!("unexpected {:?}", other),
    }
    assert!(matches!(driver.resume(Event::Written), Action::Read));
    assert_eq!(vec![frame], driver.get_messages());
}

#[test]
fn the_answer_that_cannot_be_written_ends_the_operation() {
    let mut driver = SerialDriver::new(());
    assert!(matches!(driver.read(), Action::Read));
    assert!(matches!(
        feed(&mut driver, &[0x01, 0x04, 0x00, 0x13, 0x01, 0xE9]),
        Action::Write(_)
    ));
    let broken = Error::from_io(IoErrorKind::BrokenPipe, "broken pipe");
    match driver.resume(Event::Failed(broken.clone())) {
        Action::Done(Err(e)) => assert_eq!(broken, e),
        other => panic!("unexpected {:?}", other),
    }
}

#[test]
fn an_event_that_answers_nothing_is_refused() {
    // a byte where a write was asked for
    let mut driver = SerialDriver::new(());
    assert!(matches!(driver.read(), Action::Read));
    assert!(matches!(
        feed(&mut driver, &[0x01, 0x04, 0x00, 0x13, 0x01, 0xE9]),
        Action::Write(_)
    ));
    match driver.resume(Event::Byte(0x06)) {
        Action::Done(Err(e)) => assert_eq!(ErrorKind::InvalidInput, e.kind()),
        other => panic!("unexpected {:?}", other),
    }
    // a write that ended where a read was asked for
    assert!(matches!(driver.read(), Action::Read));
    match driver.resume(Event::Written) {
        Action::Done(Err(e)) => assert_eq!(ErrorKind::InvalidInput, e.kind()),
        other => panic!("unexpected {:?}", other),
    }
    // a byte while the frame of the operation is written
    assert!(matches!(driver.get_node_ids(), Action::Read));
    assert!(matches!(driver.resume(timed_out()), Action::Read));
    assert!(matches!(driver.resume(timed_out()), Action::Read));
    assert!(matches!(driver.resume(timed_out()), Action::Write(_)));
    match driver.resume(Event::Byte(0x06)) {
        Action::Done(Err(e)) => assert_eq!(ErrorKind::InvalidInput, e.kind()),
        other => panic!("unexpected {:?}", other),
    }
}

#[test]
fn the_drain_queues_requests_only() {
    let mut driver = SerialDriver::new(());
    assert!(matches!(driver.read(), Action::Read));
    let request = SerialMessage::new(
        SerialMessageType::Request,
        SerialMessageFunction::ApplicationCommandHandler,
        vec![1, 2, 3],
    );
    let empty_request =
        SerialMessage::new(SerialMessageType::Request, SerialMessageFunction::SendData, vec![]);
    let response =
        SerialMessage::new(SerialMessageType::Response, SerialMessageFunction::SendData, vec![1]);
    for frame in [&request, &response, &empty_request] {
        assert!(matches!(feed(&mut driver, &frame.get_command()), Action::Write(_)));
        assert!(matches!(driver.resume(Event::Written), Action::Read));
    }
    assert!(matches!(feed(&mut driver, &[0x18]), Action::Read));
    assert_eq!(vec![request.clone(), empty_request.clone()], driver.get_messages());
    // a failure that is no timeout ends the operation and keeps the queue
    let broken = Error::from_io(IoErrorKind::BrokenPipe, "broken pipe");
    match driver.resume(Event::Failed(broken.clone())) {
        Action::Done(Err(e)) => assert_eq!(broken, e),
        other => panic!("unexpected {:?}", other),
    }
    assert_eq!(vec![request, empty_request], driver.get_messages());
}

#[test]
fn the_tries_of_each_read_are_counted() {
    let tries = Tries { drain: 2, write_ack: 4, query_ack: 1, response: 3 };
    let mut driver = SerialDriver::with_tries((), tries);
    // the drain of a command ends after two timeouts
    assert!(matches!(driver.write(vec![3, 2, 0x20, 2]), Action::Read));
    assert!(matches!(driver.resume(timed_out()), Action::Read));
    assert!(matches!(driver.resume(timed_out()), Action::Write(_)));
    // the ACK of a command has four tries
    assert!(matches!(driver.resume(Event::Written), Action::Read));
    for _ in 0..3 {
        assert!(matches!(driver.resume(timed_out()), Action::Read));
    }
    match driver.resume(timed_out()) {
        Action::Done(Err(e)) => assert_eq!(ErrorKind::Io(IoErrorKind::TimedOut), e.kind()),
        other => panic!("unexpected {:?}", other),
    }
    // the ACK of a question has one try
    assert!(matches!(driver.get_node_ids(), Action::Read));
    assert!(matches!(driver.resume(timed_out()), Action::Read));
    assert!(matches!(driver.resume(timed_out()), Action::Write(_)));
    assert!(matches!(driver.resume(Event::Written), Action::Read));
    assert!(matches!(driver.resume(timed_out()), Action::Done(Err(_))));
    // the response has three tries
    assert!(matches!(driver.get_node_ids(), Action::Read));
    assert!(matches!(driver.resume(timed_out()), Action::Read));
    assert!(matches!(driver.resume(timed_out()), Action::Write(_)));
    assert!(matches!(driver.resume(Event::Written), Action::Read));
    assert!(matches!(driver.resume(Event::Byte(0x06)), Action::Read));
    assert!(matches!(driver.resume(timed_out()), Action::Read));
    assert!(matches!(driver.resume(timed_out()), Action::Read));
    assert!(matches!(driver.resume(timed_out()), Action::Done(Err(_))));
}

#[test]
fn a_driver_without_tries() {
    let none = Tries { drain: 0, write_ack: 0, query_ack: 0, response: 0 };
    let mut driver = SerialDriver::with_tries((), none);
    // without a drain the frame is written at once
    match driver.get_node_ids() {
        Action::Write(bytes) => assert_eq!(vec![0x01, 0x03, 0x00, 0x02, 0xFE], bytes),
        other => panic!("unexpected {:?}", other),
    }
    // and without a try the ACK has timed out
    match driver.resume(Event::Written) {
        Action::Done(Err(e)) => assert_eq!(ErrorKind::Io(IoErrorKind::TimedOut), e.kind()),
        other => panic!("unexpected {:?}", other),
    }
    // the operation that hands out a frame ends at once
    match driver.read() {
        Action::Done(Err(e)) => assert_eq!(ErrorKind::Io(IoErrorKind::Other), e.kind()),
        other => panic!("unexpected {:?}", other),
    }
    // no response: the ACK is read, and then the response has timed out
    let mut driver =
        SerialDriver::with_tries((), Tries { drain: 0, write_ack: 1, query_ack: 1, response: 0 });
    assert!(matches!(driver.write(vec![3, 2, 0x20, 2]), Action::Write(_)));
    assert!(matches!(driver.resume(Event::Written), Action::Read));
    match driver.resume(Event::Byte(0x06)) {
        Action::Done(Err(e)) => assert_eq!(ErrorKind::Io(IoErrorKind::TimedOut), e.kind()),
        other => panic!("unexpected {:?}", other),
    }
    assert_eq!(0, driver.last_msg_id());
}

#[test]
fn the_standard_tries() {
    assert_eq!(Tries { drain: 3, write_ack: 10, query_ack: 5, response: 10 }, Tries::standard());
}

#[test]
fn message_ids_skip_zero() {
    let mut driver =
        SerialDriver::with_tries((), Tries { drain: 0, write_ack: 1, query_ack: 1, response: 1 });
    let mut send = |driver: &mut SerialDriver<()>| -> u8 {
        let sent = match driver.write(vec![3, 2, 0x20, 2]) {
            Action::Write(bytes) => bytes,
            other => panic!("unexpected {:?}", other),
        };
        assert!(matches!(driver.resume(Event::Written), Action::Read));
        assert!(matches!(driver.resume(Event::Byte(0x06)), Action::Read));
        assert!(matches!(
            feed(driver, &[0x01, 0x04, 0x01, 0x13, 0x01, 0xE8]),
            Action::Write(_)
        ));
        match driver.resume(Event::Written) {
            Action::Done(Ok(Reply::MessageId(id))) => {
                // the id is the one that the frame carried
                assert_eq!(id, sent[sent.len() - 2]);
                assert_eq!(id, driver.last_msg_id());
                id
            }
            other => panic!("unexpected {:?}", other),
        }
    };
    assert_eq!(0, driver.last_msg_id());
    for expected in 1..=255u8 {
        assert_eq!(expected, send(&mut driver));
    }
    assert_eq!(1, send(&mut driver));
    assert_eq!(2, send(&mut driver));
    for _ in 0..600 {
        assert_ne!(0, send(&mut driver));
    }
}
