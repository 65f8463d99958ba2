//! Git's pkt-line framing: a header of four hexadecimal digits that gives
//! the length of the line, itself included, and then the payload.

use vstd::prelude::*;

verus! {

/// The longest payload that fits into one pkt-line: the four digits of the
/// header count themselves and can say no more than `ffff`.
pub const MAX_PKT_PAYLOAD: usize = 65531;

/// The lower-case hexadecimal digit for a value below sixteen, as a byte.
pub open spec fn hex_digit(d: int) -> u8 {
    if d < 10 {
        (0x30 + d) as u8
    } else {
        (0x61 + (d - 10)) as u8
    }
}

/// The value of a hexadecimal digit, if the byte is one in lower case.
pub open spec fn hex_value(b: u8) -> Option<int> {
    if 0x30 <= b <= 0x39 {
        Some(b - 0x30)
    } else if 0x61 <= b <= 0x66 {
        Some(b - 0x61 + 10)
    } else {
        None
    }
}

/// The header of a pkt-line of `len` bytes in all: `len` as four
/// hexadecimal digits, the most significant first.
pub open spec fn length_header(len: int) -> Seq<u8> {
    seq![
        hex_digit(len / 4096 % 16),
        hex_digit(len / 256 % 16),
        hex_digit(len / 16 % 16),
        hex_digit(len % 16),
    ]
}

/// The length that a header declares, if it is four hexadecimal digits.
pub open spec fn declared_length(header: Seq<u8>) -> Option<int> {
    if header.len() == 4 && hex_value(header[0]) is Some && hex_value(header[1]) is Some
        && hex_value(header[2]) is Some && hex_value(header[3]) is Some {
        Some(
            hex_value(header[0]).unwrap() * 4096 + hex_value(header[1]).unwrap() * 256
                + hex_value(header[2]).unwrap() * 16 + hex_value(header[3]).unwrap(),
        )
    } else {
        None
    }
}

/// A payload framed as one pkt-line: the header, which counts its own four
/// bytes, and then the payload.
pub open spec fn pkt_line(payload: Seq<u8>) -> Seq<u8> {
    length_header(payload.len() as int + 4) + payload
}

/// The flush marker that ends a list of pkt-lines: `0000`.
pub open spec fn flush_pkt() -> Seq<u8> {
    seq![0x30u8, 0x30u8, 0x30u8, 0x30u8]
}

/// The hexadecimal digit for a value below sixteen.
fn hex_digit_of(d: usize) -> (b: u8)
    requires
        d < 16,
    ensures
        b == hex_digit(d as int),
{
    if d < 10 {
        0x30u8 + (d as u8)
    } else {
        0x61u8 + ((d - 10) as u8)
    }
}

/// Frames a payload that fits into one pkt-line.
pub(crate) fn frame(payload: &[u8]) -> (line: Vec<u8>)
    requires
        payload@.len() <= MAX_PKT_PAYLOAD,
    ensures
        line@ == pkt_line(payload@),
{
    let len: usize = payload.len() + 4;
    let mut line: Vec<u8> = Vec::with_capacity(len);
    line.push(hex_digit_of(len / 4096 % 16));
    line.push(hex_digit_of(len / 256 % 16));
    line.push(hex_digit_of(len / 16 % 16));
    line.push(hex_digit_of(len % 16));
    line.extend_from_slice(payload);
    line
}

/// Frames a payload as one pkt-line. A payload of more than
/// `MAX_PKT_PAYLOAD` bytes fits no pkt-line and gives `None`.
pub fn encode_pkt_line(payload: &[u8]) -> (r: Option<Vec<u8>>)
    ensures
        match r {
            Some(line) => payload@.len() <= MAX_PKT_PAYLOAD && line@ == pkt_line(payload@),
            None => payload@.len() > MAX_PKT_PAYLOAD,
        },
{
    if payload.len() > MAX_PKT_PAYLOAD {
        None
    } else {
        Some(frame(payload))
    }
}

/// Appends the flush marker to a list of pkt-lines.
pub fn push_flush(lines: &mut Vec<u8>)
    ensures
        final(lines)@ == old(lines)@ + flush_pkt(),
{
    lines.push(0x30u8);
    lines.push(0x30u8);
    lines.push(0x30u8);
    lines.push(0x30u8);
}

/// A header is four bytes and declares the length that it was made for. So
/// the header of a pkt-line declares the length of its payload and four
/// more.
pub proof fn lemma_header_declares_length(len: int)
    requires
        0 <= len <= 0xffff,
    ensures
        length_header(len).len() == 4,
        declared_length(length_header(len)) == Some(len),
{
    let a = len / 4096 % 16;
    let b = len / 256 % 16;
    let c = len / 16 % 16;
    let d = len % 16;
    lemma_digits_make_length(len);
    lemma_digit_has_its_value(a);
    lemma_digit_has_its_value(b);
    lemma_digit_has_its_value(c);
    lemma_digit_has_its_value(d);
}

/// A hexadecimal digit has the value that it was made for.
proof fn lemma_digit_has_its_value(d: int)
    requires
        0 <= d < 16,
    ensures
        hex_value(hex_digit(d)) == Some(d),
{
}

/// The four hexadecimal digits of a length, each times the weight of its
/// place, add up to the length.
proof fn lemma_digits_make_length(len: int)
    requires
        0 <= len <= 0xffff,
    ensures
        0 <= len / 4096 % 16 < 16,
        0 <= len / 256 % 16 < 16,
        0 <= len / 16 % 16 < 16,
        0 <= len % 16 < 16,
        (len / 4096 % 16) * 4096 + (len / 256 % 16) * 256 + (len / 16 % 16) * 16 + len % 16
            == len,
{
    let x = len as u32;
    assert((x / 4096 % 16) * 4096 + (x / 256 % 16) * 256 + (x / 16 % 16) * 16 + x % 16 == x) by (bit_vector)
        requires
            x <= 0xffff,
    ;
}

/// The flush marker is a header that declares the length zero, which no
/// pkt-line has.
pub proof fn lemma_flush_declares_nothing()
    ensures
        flush_pkt() == length_header(0),
        declared_length(flush_pkt()) == Some(0int),
        forall|payload: Seq<u8>|
            payload.len() <= MAX_PKT_PAYLOAD ==> #[trigger] pkt_line(payload).take(4)
                != flush_pkt(),
{
    assert forall|payload: Seq<u8>| payload.len() <= MAX_PKT_PAYLOAD implies #[trigger] pkt_line(
        payload,
    ).take(4) != flush_pkt() by {
        let len = payload.len() + 4;
        lemma_header_declares_length(len as int);
    }
}

} // verus!
