//! The serial frame and the byte tables of the protocol.
//!
//! A frame is either one header byte (`ACK`, `NAK`, `CAN`) or a structured frame:
//!
//! ```text
//! SOF LEN TYPE FUNC PAYLOAD.. CHECKSUM
//! ```
//!
//! `LEN` counts the bytes after it, and `CHECKSUM` is the XOR of `0xFF` and every
//! byte from `LEN` to the end of the payload.

pub mod command_class;
pub mod function;
pub mod generic_type;
pub mod laws;
pub mod meter_data;

pub use command_class::CommandClass;
pub use function::SerialMessageFunction;
pub use generic_type::GenericType;
pub use meter_data::{MeterData, MeterType, MeterValue};

use crate::error::{Error, ErrorKind};
use crate::hex::{hex_of, to_hex_string};
use vstd::prelude::*;
use vstd::slice::slice_subrange;
use vstd::slice::slice_to_vec;

verus! {

/// The first byte of every frame.
#[derive(Copy, Clone, Debug, PartialEq, Eq, Structural)]
pub enum SerialMessageHeader {
    /// Start of a frame with length, type, function, payload and checksum.
    SOF,
    /// The last frame was accepted.
    ACK,
    /// The last frame was not accepted.
    NAK,
    /// The last frame was dropped: send it again.
    CAN,
}

impl SerialMessageHeader {
    /// The byte that stands for the header on the wire.
    pub open spec fn spec_as_byte(self) -> u8 {
        match self {
            SerialMessageHeader::SOF => 0x01,
            SerialMessageHeader::ACK => 0x06,
            SerialMessageHeader::NAK => 0x15,
            SerialMessageHeader::CAN => 0x18,
        }
    }

    /// The header that a byte stands for, if it stands for one.
    pub open spec fn spec_from_byte(byte: u8) -> Option<SerialMessageHeader> {
        match byte {
            0x01 => Some(SerialMessageHeader::SOF),
            0x06 => Some(SerialMessageHeader::ACK),
            0x15 => Some(SerialMessageHeader::NAK),
            0x18 => Some(SerialMessageHeader::CAN),
            _ => None,
        }
    }

    /// Returns the byte that stands for the header on the wire.
    #[verifier::when_used_as_spec(spec_as_byte)]
    pub fn as_byte(self) -> (byte: u8)
        ensures
            byte == self.spec_as_byte(),
    {
        match self {
            SerialMessageHeader::SOF => 0x01,
            SerialMessageHeader::ACK => 0x06,
            SerialMessageHeader::NAK => 0x15,
            SerialMessageHeader::CAN => 0x18,
        }
    }

    /// Returns the header that `byte` stands for, or `None` for any other byte.
    #[verifier::when_used_as_spec(spec_from_byte)]
    pub fn from_byte(byte: u8) -> (found: Option<SerialMessageHeader>)
        ensures
            found == Self::spec_from_byte(byte),
    {
        match byte {
            0x01 => Some(SerialMessageHeader::SOF),
            0x06 => Some(SerialMessageHeader::ACK),
            0x15 => Some(SerialMessageHeader::NAK),
            0x18 => Some(SerialMessageHeader::CAN),
            _ => None,
        }
    }

    /// Every header is found again from its byte.
    pub proof fn from_byte_of_as_byte(self)
        ensures
            Self::from_byte(self.as_byte()) == Some(self),
    {
    }

    /// A byte that stands for a header is the byte of that header.
    pub proof fn as_byte_of_from_byte(byte: u8)
        ensures
            Self::from_byte(byte) matches Some(found) ==> found.as_byte() == byte,
    {
    }
}

/// Whether a frame asks or answers.
#[derive(Copy, Clone, Debug, PartialEq, Eq, Structural)]
pub enum SerialMessageType {
    Request,
    Response,
}

impl SerialMessageType {
    /// The byte that stands for the type on the wire.
    pub open spec fn spec_as_byte(self) -> u8 {
        match self {
            SerialMessageType::Request => 0x00,
            SerialMessageType::Response => 0x01,
        }
    }

    /// The type that a byte stands for, if it stands for one.
    pub open spec fn spec_from_byte(byte: u8) -> Option<SerialMessageType> {
        match byte {
            0x00 => Some(SerialMessageType::Request),
            0x01 => Some(SerialMessageType::Response),
            _ => None,
        }
    }

    /// Returns the byte that stands for the type on the wire.
    #[verifier::when_used_as_spec(spec_as_byte)]
    pub fn as_byte(self) -> (byte: u8)
        ensures
            byte == self.spec_as_byte(),
    {
        match self {
            SerialMessageType::Request => 0x00,
            SerialMessageType::Response => 0x01,
        }
    }

    /// Returns the type that `byte` stands for, or `None` for any other byte.
    #[verifier::when_used_as_spec(spec_from_byte)]
    pub fn from_byte(byte: u8) -> (found: Option<SerialMessageType>)
        ensures
            found == Self::spec_from_byte(byte),
    {
        match byte {
            0x00 => Some(SerialMessageType::Request),
            0x01 => Some(SerialMessageType::Response),
            _ => None,
        }
    }

    /// Every type is found again from its byte.
    pub proof fn from_byte_of_as_byte(self)
        ensures
            Self::from_byte(self.as_byte()) == Some(self),
    {
    }

    /// A byte that stands for a type is the byte of that type.
    pub proof fn as_byte_of_from_byte(byte: u8)
        ensures
            Self::from_byte(byte) matches Some(found) ==> found.as_byte() == byte,
    {
    }
}

/// How the controller is to route a command to its node.
#[derive(Copy, Clone, Debug, PartialEq, Eq, Structural)]
pub enum SerialTransmissionType {
    ACK,
    LowPower,
    AutoRoute,
    Explore,
    Direct,
}

impl SerialTransmissionType {
    /// The byte that stands for the transmission type on the wire.
    pub open spec fn spec_as_byte(self) -> u8 {
        match self {
            SerialTransmissionType::ACK => 0x01,
            SerialTransmissionType::LowPower => 0x02,
            SerialTransmissionType::AutoRoute => 0x04,
            SerialTransmissionType::Explore => 0x20,
            SerialTransmissionType::Direct => 0x25,
        }
    }

    /// The transmission type that a byte stands for, if it stands for one.
    pub open spec fn spec_from_byte(byte: u8) -> Option<SerialTransmissionType> {
        match byte {
            0x01 => Some(SerialTransmissionType::ACK),
            0x02 => Some(SerialTransmissionType::LowPower),
            0x04 => Some(SerialTransmissionType::AutoRoute),
            0x20 => Some(SerialTransmissionType::Explore),
            0x25 => Some(SerialTransmissionType::Direct),
            _ => None,
        }
    }

    /// Returns the byte that stands for the transmission type on the wire.
    #[verifier::when_used_as_spec(spec_as_byte)]
    pub fn as_byte(self) -> (byte: u8)
        ensures
            byte == self.spec_as_byte(),
    {
        match self {
            SerialTransmissionType::ACK => 0x01,
            SerialTransmissionType::LowPower => 0x02,
            SerialTransmissionType::AutoRoute => 0x04,
            SerialTransmissionType::Explore => 0x20,
            SerialTransmissionType::Direct => 0x25,
        }
    }

    /// Returns the transmission type that `byte` stands for, or `None` for any other byte.
    #[verifier::when_used_as_spec(spec_from_byte)]
    pub fn from_byte(byte: u8) -> (found: Option<SerialTransmissionType>)
        ensures
            found == Self::spec_from_byte(byte),
    {
        match byte {
            0x01 => Some(SerialTransmissionType::ACK),
            0x02 => Some(SerialTransmissionType::LowPower),
            0x04 => Some(SerialTransmissionType::AutoRoute),
            0x20 => Some(SerialTransmissionType::Explore),
            0x25 => Some(SerialTransmissionType::Direct),
            _ => None,
        }
    }

    /// Every transmission type is found again from its byte.
    pub proof fn from_byte_of_as_byte(self)
        ensures
            Self::from_byte(self.as_byte()) == Some(self),
    {
    }

    /// A byte that stands for a transmission type is the byte of that transmission type.
    pub proof fn as_byte_of_from_byte(byte: u8)
        ensures
            Self::from_byte(byte) matches Some(found) ==> found.as_byte() == byte,
    {
    }
}

/// A frame that can be sent and received over the serial link.
#[derive(Debug, PartialEq, Eq)]
pub struct SerialMessage {
    pub header: SerialMessageHeader,
    pub typ: SerialMessageType,
    pub func: SerialMessageFunction,
    pub data: Vec<u8>,
}

/// What a frame holds: the model that the contracts speak of.
#[verifier::ext_equal]
pub struct SerialMessageView {
    pub header: SerialMessageHeader,
    pub typ: SerialMessageType,
    pub func: SerialMessageFunction,
    pub data: Seq<u8>,
}

impl View for SerialMessage {
    type V = SerialMessageView;

    open spec fn view(&self) -> SerialMessageView {
        SerialMessageView { header: self.header, typ: self.typ, func: self.func, data: self.data@ }
    }
}

impl Clone for SerialMessage {
    fn clone(&self) -> (copy: SerialMessage)
        ensures
            copy@ == self@,
    {
        SerialMessage {
            header: self.header,
            typ: self.typ,
            func: self.func,
            data: self.data.clone(),
        }
    }
}

/// The frame that holds nothing but the header `header`.
pub open spec fn header_only(header: SerialMessageHeader) -> SerialMessageView {
    SerialMessageView {
        header,
        typ: SerialMessageType::Response,
        func: SerialMessageFunction::NoFunction,
        data: Seq::empty(),
    }
}

/// The XOR of `0xFF` and every byte of `bytes`.
pub open spec fn xor_sum(bytes: Seq<u8>) -> u8
    decreases bytes.len(),
{
    if bytes.len() == 0 {
        0xFF
    } else {
        xor_sum(bytes.drop_last()) ^ bytes.last()
    }
}

/// The checksum of a frame that lacks only its checksum byte: the XOR of `0xFF`
/// and every byte after the first.
pub open spec fn checksum_of(frame: Seq<u8>) -> u8 {
    if frame.len() == 0 {
        0xFF
    } else {
        xor_sum(frame.skip(1))
    }
}

/// The bytes that a frame is sent as.
pub open spec fn encode(frame: SerialMessageView) -> Seq<u8> {
    if frame.header != SerialMessageHeader::SOF {
        seq![frame.header.as_byte()]
    } else {
        let body = seq![
            SerialMessageHeader::SOF.as_byte(),
            ((frame.data.len() + 3) % 256) as u8,
            frame.typ.as_byte(),
            frame.func.as_byte(),
        ] + frame.data;
        body.push(checksum_of(body))
    }
}

/// Whether `bytes` begin with `SOF` and have the length and the checksum of a
/// structured frame.
pub open spec fn well_framed(bytes: Seq<u8>) -> bool {
    &&& bytes.len() >= 5
    &&& bytes[0] == SerialMessageHeader::SOF.as_byte()
    &&& bytes[1] == bytes.len() - 2
    &&& checksum_of(bytes.drop_last()) == bytes.last()
}

/// The frame that `bytes` are read as, `None` where they are no frame.
pub open spec fn decode(bytes: Seq<u8>) -> Option<SerialMessageView> {
    if bytes.len() == 0 {
        None
    } else {
        match SerialMessageHeader::from_byte(bytes[0]) {
            None => None,
            Some(SerialMessageHeader::SOF) => {
                if !well_framed(bytes) {
                    None
                } else {
                    match (
                        SerialMessageType::from_byte(bytes[2]),
                        SerialMessageFunction::from_byte(bytes[3]),
                    ) {
                        (Some(typ), Some(func)) => Some(
                            SerialMessageView {
                                header: SerialMessageHeader::SOF,
                                typ,
                                func,
                                data: bytes.subrange(4, bytes.len() - 1),
                            },
                        ),
                        _ => None,
                    }
                }
            },
            Some(header) => Some(header_only(header)),
        }
    }
}

impl SerialMessage {
    /// Creates a structured frame.
    pub fn new(typ: SerialMessageType, func: SerialMessageFunction, data: Vec<u8>) -> (frame:
        SerialMessage)
        ensures
            frame@ == (SerialMessageView { header: SerialMessageHeader::SOF, typ, func, data: data@ }),
    {
        SerialMessage { header: SerialMessageHeader::SOF, typ, func, data }
    }

    /// Creates a frame that holds only a header.
    pub fn new_header(header: SerialMessageHeader) -> (frame: SerialMessage)
        ensures
            frame@ == header_only(header),
    {
        SerialMessage {
            header,
            typ: SerialMessageType::Response,
            func: SerialMessageFunction::NoFunction,
            data: Vec::new(),
        }
    }

    /// Reads `data` as a frame.
    ///
    /// A first byte `ACK`, `NAK` or `CAN` gives the frame of that header, whatever
    /// follows. A first byte `SOF` gives a structured frame where the length byte,
    /// the checksum, the type and the function are right. Everything else is
    /// refused as `UnknownZWave`.
    pub fn parse(data: &[u8]) -> (parsed: Result<SerialMessage, Error>)
        ensures
            match parsed {
                Ok(frame) => decode(data@) == Some(frame@),
                Err(e) => decode(data@) is None && e.kind() == ErrorKind::UnknownZWave,
            },
    {
        if data.len() < 1 {
            return Err(
                Error::new(
                    ErrorKind::UnknownZWave,
                    "No message delivered, at least a head is needed",
                ),
            );
        }
        let header = match SerialMessageHeader::from_byte(data[0]) {
            Some(header) => header,
            None => {
                return Err(Error::new(ErrorKind::UnknownZWave, "Unknown ZWave header detected"));
            },
        };
        if header != SerialMessageHeader::SOF {
            return Ok(SerialMessage::new_header(header));
        }
        if data.len() < 5 {
            return Err(
                Error::new(
                    ErrorKind::UnknownZWave,
                    "Data is too short for a ZWave message with SOF header",
                ),
            );
        }
        if data[1] as usize != data.len() - 2 {
            return Err(
                Error::new(
                    ErrorKind::UnknownZWave,
                    "The length of the message defined in the ZWave message didn't match with the actual length",
                ),
            );
        }
        let last = data.len() - 1;
        assert(data@.subrange(0, last as int) == data@.drop_last());
        if SerialMessage::checksum(slice_subrange(data, 0, last)) != data[last] {
            return Err(
                Error::new(ErrorKind::UnknownZWave, "The checksum didn't match to the message"),
            );
        }
        let typ = match SerialMessageType::from_byte(data[2]) {
            Some(typ) => typ,
            None => {
                return Err(Error::new(ErrorKind::UnknownZWave, "Unknown message type"));
            },
        };
        let func = match SerialMessageFunction::from_byte(data[3]) {
            Some(func) => func,
            None => {
                return Err(Error::new(ErrorKind::UnknownZWave, "Unknown ZWave function detected"));
            },
        };
        Ok(SerialMessage::new(typ, func, slice_to_vec(slice_subrange(data, 4, last))))
    }

    /// Returns the bytes that the frame is sent as.
    ///
    /// The length byte holds the payload's length plus three, cut to eight bits: a
    /// payload of more than 252 bytes gives bytes that `parse` refuses.
    pub fn get_command(&self) -> (bytes: Vec<u8>)
        ensures
            bytes@ == encode(self@),
    {
        if self.header != SerialMessageHeader::SOF {
            return vec![self.header.as_byte()];
        }
        let length: usize = (self.data.len() % 256 + 3) % 256;
        let mut buf: Vec<u8> = vec![
            self.header.as_byte(),
            length as u8,
            self.typ.as_byte(),
            self.func.as_byte(),
        ];
        buf.extend_from_slice(self.data.as_slice());
        proof {
            let body = seq![
                SerialMessageHeader::SOF.as_byte(),
                ((self.data@.len() + 3) % 256) as u8,
                self.typ.as_byte(),
                self.func.as_byte(),
            ] + self.data@;
            assert(length == (self.data@.len() + 3) % 256);
            assert(buf@ == body);
        }
        let cs = SerialMessage::checksum(buf.as_slice());
        buf.push(cs);
        buf
    }

    /// Returns the bytes of `data` as text, each byte as `0x` and its upper-case
    /// hexadecimal digits, followed by a space.
    pub fn to_hex(data: &Vec<u8>) -> (text: String)
        ensures
            text@ == hex_of(data@),
    {
        to_hex_string(data.as_slice())
    }

    /// Returns the bytes that the frame is sent as, as text.
    pub fn get_hex(&self) -> (text: String)
        ensures
            text@ == hex_of(encode(self@)),
    {
        let bytes = self.get_command();
        to_hex_string(bytes.as_slice())
    }

    /// Returns the checksum of a frame that lacks only its checksum byte.
    pub fn checksum(data: &[u8]) -> (sum: u8)
        ensures
            sum == checksum_of(data@),
    {
        let mut ret: u8 = 0xFF;
        let mut i: usize = 1;
        while i < data.len()
            invariant
                1 <= i,
                i <= data.len() || data.len() == 0,
                data.len() > 0 ==> ret == xor_sum(data@.subrange(1, i as int)),
                data.len() == 0 ==> ret == 0xFF,
            decreases data.len() - i,
        {
            assert(data@.subrange(1, i + 1).drop_last() == data@.subrange(1, i as int));
            ret = ret ^ data[i];
            i = i + 1;
        }
        assert(data.len() > 0 ==> data@.subrange(1, i as int) == data@.skip(1));
        ret
    }
}

} // verus!
