//! What holds of every frame: the laws of the frame codec.

use super::{
    checksum_of, decode, encode, header_only, well_framed, xor_sum, SerialMessageFunction,
    SerialMessageHeader, SerialMessageType, SerialMessageView,
};
use vstd::prelude::*;

verus! {

/// The XOR sum of a sequence with one more byte is the sum of the sequence,
/// XORed with that byte.
pub proof fn xor_sum_push(bytes: Seq<u8>, byte: u8)
    ensures
        xor_sum(bytes.push(byte)) == xor_sum(bytes) ^ byte,
{
    assert(bytes.push(byte).drop_last() == bytes);
}

/// Replacing one byte of a sequence changes its XOR sum by the XOR of the old
/// and the new byte.
pub proof fn xor_sum_update(bytes: Seq<u8>, at: int, byte: u8)
    requires
        0 <= at < bytes.len(),
    ensures
        xor_sum(bytes.update(at, byte)) == xor_sum(bytes) ^ bytes[at] ^ byte,
    decreases bytes.len(),
{
    let changed = bytes.update(at, byte);
    let rest = xor_sum(bytes.drop_last());
    if at == bytes.len() - 1 {
        assert(changed.drop_last() == bytes.drop_last());
        let old_byte = bytes[at];
        assert(rest ^ byte == (rest ^ old_byte) ^ old_byte ^ byte) by (bit_vector);
    } else {
        assert(changed.drop_last() == bytes.drop_last().update(at, byte));
        xor_sum_update(bytes.drop_last(), at, byte);
        let old_byte = bytes[at];
        let last = bytes.last();
        assert(((rest ^ old_byte) ^ byte) ^ last == ((rest ^ last) ^ old_byte) ^ byte)
            by (bit_vector);
    }
}

/// Decoding what was encoded gives the frame back: for every type, function
/// and payload of at most 252 bytes.
pub proof fn decode_of_encode(typ: SerialMessageType, func: SerialMessageFunction, data: Seq<u8>)
    requires
        data.len() <= 252,
    ensures
        decode(
            encode(SerialMessageView { header: SerialMessageHeader::SOF, typ, func, data }),
        ) == Some(SerialMessageView { header: SerialMessageHeader::SOF, typ, func, data }),
{
    let frame = SerialMessageView { header: SerialMessageHeader::SOF, typ, func, data };
    let body = seq![
        SerialMessageHeader::SOF.as_byte(),
        ((data.len() + 3) % 256) as u8,
        typ.as_byte(),
        func.as_byte(),
    ] + data;
    let bytes = encode(frame);
    assert(bytes == body.push(checksum_of(body)));
    assert(bytes.drop_last() == body);
    assert(bytes.subrange(4, bytes.len() - 1) == data);
    typ.from_byte_of_as_byte();
    func.from_byte_of_as_byte();
    assert(well_framed(bytes));
}

/// The XOR of `0xFF` and every byte of an encoded structured frame, from the
/// length byte to the checksum, is zero.
pub proof fn encoded_xor_is_zero(frame: SerialMessageView)
    requires
        frame.header == SerialMessageHeader::SOF,
    ensures
        checksum_of(encode(frame)) == 0,
{
    let body = seq![
        SerialMessageHeader::SOF.as_byte(),
        ((frame.data.len() + 3) % 256) as u8,
        frame.typ.as_byte(),
        frame.func.as_byte(),
    ] + frame.data;
    let sum = checksum_of(body);
    assert(encode(frame) == body.push(sum));
    assert(body.push(sum).skip(1) == body.skip(1).push(sum));
    xor_sum_push(body.skip(1), sum);
    assert(sum ^ sum == 0) by (bit_vector);
}

/// A header-only frame is one byte on the wire, and that byte is read as the
/// frame again.
pub proof fn header_only_round_trip(header: SerialMessageHeader)
    requires
        header != SerialMessageHeader::SOF,
    ensures
        encode(header_only(header)) == seq![header.as_byte()],
        decode(seq![header.as_byte()]) == Some(header_only(header)),
{
    header.from_byte_of_as_byte();
}

/// Changing any one byte of a valid structured frame makes it no frame at all.
///
/// The one way out is a new first byte that is itself a header-only frame
/// (`ACK`, `NAK` or `CAN`): those are left out.
pub proof fn changed_byte_is_refused(bytes: Seq<u8>, at: int, byte: u8)
    requires
        decode(bytes) is Some,
        bytes[0] == SerialMessageHeader::SOF.as_byte(),
        0 <= at < bytes.len(),
        byte != bytes[at],
        at == 0 ==> SerialMessageHeader::from_byte(byte) is None,
    ensures
        decode(bytes.update(at, byte)) is None,
{
    let changed = bytes.update(at, byte);
    assert(well_framed(bytes));
    if at == 0 {
    } else if at == 1 {
    } else if at == bytes.len() - 1 {
        assert(changed.drop_last() == bytes.drop_last());
    } else {
        let inner = bytes.drop_last().skip(1);
        assert(changed.drop_last().skip(1) == inner.update(at - 1, byte));
        xor_sum_update(inner, at - 1, byte);
        let sum = xor_sum(inner);
        let old_byte = bytes[at];
        assert(inner[at - 1] == old_byte);
        assert(sum ^ old_byte ^ byte != sum) by (bit_vector)
            requires
                byte != old_byte,
        ;
    }
}

} // verus!
