//! The canonical byte form of a claim: a JSON object with the keys `data`,
//! `metadata` (left out when absent) and `timestamp`, in that order, without
//! whitespace.

use vstd::prelude::*;

verus! {

/// The lower-case hexadecimal digit, as an ASCII byte, of a value below 16.
pub open spec fn hex_digit(v: int) -> u8 {
    if v < 10 {
        (0x30 + v) as u8
    } else {
        (0x57 + v) as u8
    }
}

/// What one byte of a string becomes inside a JSON string: the quote, the
/// backslash and the control bytes are escaped, every other byte stands for
/// itself.
pub open spec fn escape_byte(b: u8) -> Seq<u8> {
    if b == 0x22 {
        seq![0x5cu8, 0x22u8]
    } else if b == 0x5c {
        seq![0x5cu8, 0x5cu8]
    } else if b == 0x08 {
        seq![0x5cu8, 0x62u8]
    } else if b == 0x09 {
        seq![0x5cu8, 0x74u8]
    } else if b == 0x0a {
        seq![0x5cu8, 0x6eu8]
    } else if b == 0x0c {
        seq![0x5cu8, 0x66u8]
    } else if b == 0x0d {
        seq![0x5cu8, 0x72u8]
    } else if b < 0x20 {
        seq![0x5cu8, 0x75u8, 0x30u8, 0x30u8, hex_digit(b as int / 16), hex_digit(b as int % 16)]
    } else {
        seq![b]
    }
}

/// The escaped form of a run of bytes: each byte's escape, in order.
pub open spec fn escape_bytes(bytes: Seq<u8>) -> Seq<u8>
    decreases bytes.len(),
{
    if bytes.len() == 0 {
        Seq::empty()
    } else {
        escape_bytes(bytes.drop_last()) + escape_byte(bytes.last())
    }
}

/// The decimal digits of a number, as ASCII bytes, without leading zeros.
pub open spec fn decimal_digits(n: nat) -> Seq<u8>
    decreases n,
{
    if n < 10 {
        seq![(0x30 + n) as u8]
    } else {
        decimal_digits(n / 10).push((0x30 + n % 10) as u8)
    }
}

/// A claim as a mathematical value: the three fields that the canonical form
/// is a function of.
pub struct ClaimView {
    pub data: Seq<char>,
    pub metadata: Option<Seq<char>>,
    pub timestamp: u64,
}

/// The bytes `{"data":`, which open every canonical form.
pub open spec fn data_key() -> Seq<u8> {
    seq![0x7bu8, 0x22u8, 0x64u8, 0x61u8, 0x74u8, 0x61u8, 0x22u8, 0x3au8]
}

/// The bytes `,"metadata":`, which introduce the note where there is one.
pub open spec fn metadata_key() -> Seq<u8> {
    seq![0x2cu8, 0x22u8, 0x6du8, 0x65u8, 0x74u8, 0x61u8, 0x64u8, 0x61u8, 0x74u8, 0x61u8, 0x22u8, 0x3au8]
}

/// The bytes `,"timestamp":`, which introduce the time.
pub open spec fn timestamp_key() -> Seq<u8> {
    seq![0x2cu8, 0x22u8, 0x74u8, 0x69u8, 0x6du8, 0x65u8, 0x73u8, 0x74u8, 0x61u8, 0x6du8, 0x70u8, 0x22u8, 0x3au8]
}

/// A text as a JSON string: its UTF-8 bytes, escaped, between two quotes.
pub open spec fn json_string(text: Seq<char>) -> Seq<u8> {
    seq![0x22u8] + escape_bytes(vstd::utf8::encode_utf8(text)) + seq![0x22u8]
}

/// The member `metadata` of the canonical form: nothing at all where the
/// claim has no note.
pub open spec fn metadata_member(metadata: Option<Seq<char>>) -> Seq<u8> {
    match metadata {
        Some(m) => metadata_key() + json_string(m),
        None => Seq::empty(),
    }
}

/// The canonical form of a claim: the members `data`, `metadata` and
/// `timestamp` in this order, no whitespace, strings escaped as JSON asks,
/// the time as a bare decimal number.
pub open spec fn canonical_bytes(claim: ClaimView) -> Seq<u8> {
    data_key() + json_string(claim.data) + metadata_member(claim.metadata) + timestamp_key()
        + decimal_digits(claim.timestamp as nat) + seq![0x7du8]
}

/// Appends the decimal digits of `n` to `out`.
pub(crate) fn push_decimal(out: &mut Vec<u8>, n: u64)
    ensures
        final(out)@ == old(out)@ + decimal_digits(n as nat),
    decreases n,
{
    if n >= 10 {
        push_decimal(out, n / 10);
    }
    let digit: u8 = 0x30u8 + (n % 10) as u8;
    out.push(digit);
    assert(out@ =~= old(out)@ + decimal_digits(n as nat));
}

/// Appends the escaped form of `bytes` to `out`.
pub(crate) fn push_escaped(out: &mut Vec<u8>, bytes: &[u8])
    ensures
        final(out)@ == old(out)@ + escape_bytes(bytes@),
{
    let mut i: usize = 0;
    while i < bytes.len()
        invariant
            i <= bytes.len(),
            out@ == old(out)@ + escape_bytes(bytes@.take(i as int)),
        decreases bytes.len() - i,
    {
        let b: u8 = bytes[i];
        assert(bytes@.take(i + 1).drop_last() =~= bytes@.take(i as int));
        assert(bytes@.take(i + 1).last() == b);
        if b == 0x22 {
            out.push(0x5c);
            out.push(0x22);
        } else if b == 0x5c {
            out.push(0x5c);
            out.push(0x5c);
        } else if b == 0x08 {
            out.push(0x5c);
            out.push(0x62);
        } else if b == 0x09 {
            out.push(0x5c);
            out.push(0x74);
        } else if b == 0x0a {
            out.push(0x5c);
            out.push(0x6e);
        } else if b == 0x0c {
            out.push(0x5c);
            out.push(0x66);
        } else if b == 0x0d {
            out.push(0x5c);
            out.push(0x72);
        } else if b < 0x20 {
            out.push(0x5c);
            out.push(0x75);
            out.push(0x30);
            out.push(0x30);
            out.push(lower_hex_digit(b / 16));
            out.push(lower_hex_digit(b % 16));
        } else {
            out.push(b);
        }
        assert(out@ =~= old(out)@ + escape_bytes(bytes@.take(i as int)) + escape_byte(b));
        i = i + 1;
    }
    assert(bytes@.take(i as int) =~= bytes@);
}

/// The lower-case hexadecimal digit of a value below 16.
fn lower_hex_digit(v: u8) -> (d: u8)
    requires
        v < 16,
    ensures
        d == hex_digit(v as int),
{
    if v < 10 {
        0x30 + v
    } else {
        0x57 + v
    }
}

/// Appends `bytes` to `out`.
fn push_all(out: &mut Vec<u8>, bytes: &[u8])
    ensures
        final(out)@ == old(out)@ + bytes@,
{
    let mut i: usize = 0;
    while i < bytes.len()
        invariant
            i <= bytes.len(),
            out@ == old(out)@ + bytes@.take(i as int),
        decreases bytes.len() - i,
    {
        out.push(bytes[i]);
        assert(out@ =~= old(out)@ + bytes@.take(i + 1));
        i = i + 1;
    }
    assert(bytes@.take(i as int) =~= bytes@);
}

/// Appends `{"data":` to `out`.
pub(crate) fn push_data_key(out: &mut Vec<u8>)
    ensures
        final(out)@ == old(out)@ + data_key(),
{
    let key: [u8; 8] = [0x7bu8, 0x22u8, 0x64u8, 0x61u8, 0x74u8, 0x61u8, 0x22u8, 0x3au8];
    push_all(out, key.as_slice());
    assert(key@ =~= data_key());
}

/// Appends `,"metadata":` to `out`.
pub(crate) fn push_metadata_key(out: &mut Vec<u8>)
    ensures
        final(out)@ == old(out)@ + metadata_key(),
{
    let key: [u8; 12] = [0x2cu8, 0x22u8, 0x6du8, 0x65u8, 0x74u8, 0x61u8, 0x64u8, 0x61u8, 0x74u8, 0x61u8, 0x22u8, 0x3au8];
    push_all(out, key.as_slice());
    assert(key@ =~= metadata_key());
}

/// Appends `,"timestamp":` to `out`.
pub(crate) fn push_timestamp_key(out: &mut Vec<u8>)
    ensures
        final(out)@ == old(out)@ + timestamp_key(),
{
    let key: [u8; 13] = [0x2cu8, 0x22u8, 0x74u8, 0x69u8, 0x6du8, 0x65u8, 0x73u8, 0x74u8, 0x61u8, 0x6du8, 0x70u8, 0x22u8, 0x3au8];
    push_all(out, key.as_slice());
    assert(key@ =~= timestamp_key());
}

/// Appends `text` as a JSON string to `out`.
pub(crate) fn push_json_string(out: &mut Vec<u8>, text: &str)
    ensures
        final(out)@ == old(out)@ + json_string(text@),
{
    out.push(0x22);
    push_escaped(out, text.as_bytes());
    out.push(0x22);
    assert(out@ =~= old(out)@ + json_string(text@));
}

} // verus!
