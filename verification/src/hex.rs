//! Bytes as text: each byte as `0x` and its upper-case hexadecimal digits,
//! without leading zeros, followed by one space.

use vstd::prelude::*;
use vstd::string::StringExecFns;

verus! {

/// The hexadecimal digit of a number below sixteen.
pub open spec fn hex_digit(n: u8) -> char
    recommends
        n < 16,
{
    match n {
        0 => '0',
        1 => '1',
        2 => '2',
        3 => '3',
        4 => '4',
        5 => '5',
        6 => '6',
        7 => '7',
        8 => '8',
        9 => '9',
        10 => 'A',
        11 => 'B',
        12 => 'C',
        13 => 'D',
        14 => 'E',
        _ => 'F',
    }
}

/// The text of one byte: `0x`, the digits, a space.
pub open spec fn hex_of_byte(byte: u8) -> Seq<char> {
    if byte < 16 {
        seq!['0', 'x', hex_digit(byte), ' ']
    } else {
        seq!['0', 'x', hex_digit(byte / 16), hex_digit(byte % 16), ' ']
    }
}

/// The text of a sequence of bytes: the texts of its bytes, one after the other.
pub open spec fn hex_of(bytes: Seq<u8>) -> Seq<char>
    decreases bytes.len(),
{
    if bytes.len() == 0 {
        Seq::empty()
    } else {
        hex_of(bytes.drop_last()) + hex_of_byte(bytes.last())
    }
}

/// Returns the hexadecimal digit of `n` as text.
fn digit(n: u8) -> (text: &'static str)
    requires
        n < 16,
    ensures
        text@ == seq![hex_digit(n)],
{
    proof {
        reveal_strlit("0");
        reveal_strlit("1");
        reveal_strlit("2");
        reveal_strlit("3");
        reveal_strlit("4");
        reveal_strlit("5");
        reveal_strlit("6");
        reveal_strlit("7");
        reveal_strlit("8");
        reveal_strlit("9");
        reveal_strlit("A");
        reveal_strlit("B");
        reveal_strlit("C");
        reveal_strlit("D");
        reveal_strlit("E");
        reveal_strlit("F");
    }
    let text = match n {
        0 => "0",
        1 => "1",
        2 => "2",
        3 => "3",
        4 => "4",
        5 => "5",
        6 => "6",
        7 => "7",
        8 => "8",
        9 => "9",
        10 => "A",
        11 => "B",
        12 => "C",
        13 => "D",
        14 => "E",
        _ => "F",
    };
    assert(text@ == seq![hex_digit(n)]);
    text
}

/// Appends the text of `byte` to `out`.
fn push_hex_byte(out: &mut String, byte: u8)
    ensures
        final(out)@ == old(out)@ + hex_of_byte(byte),
{
    proof {
        reveal_strlit("0x");
        reveal_strlit(" ");
    }
    out.append("0x");
    if byte >= 16 {
        out.append(digit(byte / 16));
    }
    out.append(digit(byte % 16));
    out.append(" ");
    assert(out@ == old(out)@ + hex_of_byte(byte));
}

/// Returns the bytes of `data` as text.
pub fn to_hex_string(data: &[u8]) -> (out: String)
    ensures
        out@ == hex_of(data@),
{
    let mut out = String::new();
    let mut i: usize = 0;
    while i < data.len()
        invariant
            i <= data.len(),
            out@ == hex_of(data@.take(i as int)),
        decreases data.len() - i,
    {
        assert(data@.take(i + 1).drop_last() == data@.take(i as int));
        push_hex_byte(&mut out, data[i]);
        i = i + 1;
    }
    assert(data@.take(i as int) == data@);
    out
}

} // verus!
