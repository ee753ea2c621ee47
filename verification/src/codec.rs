//! Keys and signatures as text: raw bytes to lower-case hexadecimal digits
//! and back.

use vstd::prelude::*;
use vstd::string::*;
use crate::canonical::hex_digit;
use crate::error::SdkError;

verus! {

/// Whether a byte is an ASCII hexadecimal digit, of either case.
pub open spec fn is_hex_digit(c: u8) -> bool {
    (0x30 <= c <= 0x39) || (0x41 <= c <= 0x46) || (0x61 <= c <= 0x66)
}

/// The value of a hexadecimal digit.
pub open spec fn hex_value(c: u8) -> int {
    if 0x30 <= c <= 0x39 {
        c - 0x30
    } else if 0x41 <= c <= 0x46 {
        c - 0x41 + 10
    } else {
        c - 0x61 + 10
    }
}

/// Whether `text` is hexadecimal text: an even number of bytes, each of them
/// a hexadecimal digit.
pub open spec fn is_hex_text(text: Seq<u8>) -> bool {
    &&& text.len() % 2 == 0
    &&& forall|i: int| 0 <= i < text.len() ==> is_hex_digit(#[trigger] text[i])
}

/// The bytes that hexadecimal text stands for: one byte for each two digits,
/// the first of them the higher half.
pub open spec fn hex_decoded(text: Seq<u8>) -> Seq<u8> {
    Seq::new(
        text.len() / 2,
        |i: int| (16 * hex_value(text[2 * i]) + hex_value(text[2 * i + 1])) as u8,
    )
}

/// Bytes as hexadecimal text: two lower-case digits for each byte, the
/// higher half first.
pub open spec fn hex_encoded(bytes: Seq<u8>) -> Seq<char> {
    Seq::new(
        2 * bytes.len(),
        |i: int|
            if i % 2 == 0 {
                hex_digit(bytes[i / 2] as int / 16) as char
            } else {
                hex_digit(bytes[i / 2] as int % 16) as char
            },
    )
}

#[verifier::external_type_specification]
#[verifier::external_body]
pub struct ExFromHexError(hex::FromHexError);

/// `hex::encode`: two lower-case hexadecimal digits for each byte of the
/// input, in order, the higher half of a byte first.
#[verifier::external_body]
fn hex_encode(bytes: &[u8]) -> (text: String)
    ensures
        text@ == hex_encoded(bytes@),
{
    hex::encode(bytes)
}

/// `hex::decode`: succeeds exactly on an even number of hexadecimal digits,
/// of either case, and then gives one byte for each two digits.
#[verifier::external_body]
fn hex_decode(text: &[u8]) -> (res: Result<Vec<u8>, hex::FromHexError>)
    ensures
        res is Ok <==> is_hex_text(text@),
        res matches Ok(bytes) ==> bytes@ == hex_decoded(text@),
{
    hex::decode(text)
}

/// The `Display` text of a `hex::FromHexError`. Nothing is claimed of it.
#[verifier::external_body]
fn hex_error_text(e: &hex::FromHexError) -> String {
    e.to_string()
}


/// The two directions of the codec agree: the text that encoding gives is
/// hexadecimal text, and decoding it gives the bytes back.
pub proof fn lemma_hex_round_trip(bytes: Seq<u8>)
    ensures
        is_hex_text(vstd::utf8::encode_utf8(hex_encoded(bytes))),
        hex_decoded(vstd::utf8::encode_utf8(hex_encoded(bytes))) == bytes,
        key_material(hex_encoded(bytes), bytes.len()) == Some(bytes),
{
    let text = hex_encoded(bytes);
    let digits = vstd::utf8::encode_utf8(text);
    assert(vstd::utf8::is_ascii_chars(text));
    vstd::utf8::is_ascii_chars_encode_utf8(text);
    assert(digits.len() == 2 * bytes.len());
    assert forall|i: int| 0 <= i < digits.len() implies is_hex_digit(#[trigger] digits[i]) by {
        assert(digits[i] == text[i] as u8);
    }
    assert(hex_decoded(digits) =~= bytes);
}

/// Whether a character is a lower-case hexadecimal digit.
pub open spec fn is_lower_hex_char(c: char) -> bool {
    ('0' <= c && c <= '9') || ('a' <= c && c <= 'f')
}

/// The other direction: hexadecimal text in lower case is what encoding
/// gives for the bytes that it decodes to.
pub proof fn lemma_hex_text_round_trip(text: Seq<char>)
    requires
        text.len() % 2 == 0,
        forall|i: int| 0 <= i < text.len() ==> is_lower_hex_char(#[trigger] text[i]),
    ensures
        is_hex_text(vstd::utf8::encode_utf8(text)),
        hex_encoded(hex_decoded(vstd::utf8::encode_utf8(text))) == text,
{
    let digits = vstd::utf8::encode_utf8(text);
    assert(vstd::utf8::is_ascii_chars(text)) by {
        assert forall|i: int| 0 <= i < text.len() implies 0 <= #[trigger] (text[i] as nat) < 128 by {
            assert(is_lower_hex_char(text[i]));
        }
    }
    vstd::utf8::is_ascii_chars_encode_utf8(text);
    assert forall|i: int| 0 <= i < digits.len() implies is_hex_digit(#[trigger] digits[i]) by {
        assert(is_lower_hex_char(text[i]));
        assert(digits[i] == text[i] as u8);
    }
    let bytes = hex_decoded(digits);
    let again = hex_encoded(bytes);
    assert(again.len() == text.len());
    assert forall|i: int| 0 <= i < text.len() implies again[i] == text[i] by {
        let k = i / 2;
        assert(is_lower_hex_char(text[2 * k]));
        assert(is_lower_hex_char(text[2 * k + 1]));
        assert(digits[2 * k] == text[2 * k] as u8);
        assert(digits[2 * k + 1] == text[2 * k + 1] as u8);
        let hi = hex_value(digits[2 * k]);
        let lo = hex_value(digits[2 * k + 1]);
        assert(0 <= hi < 16 && 0 <= lo < 16);
        assert(bytes[k] == 16 * hi + lo);
        assert(bytes[k] as int / 16 == hi);
        assert(bytes[k] as int % 16 == lo);
        assert(hex_digit(hi) == digits[2 * k]);
        assert(hex_digit(lo) == digits[2 * k + 1]);
    }
    assert(again =~= text);
}

/// The raw bytes that `text` stands for as key material of `len` bytes:
/// `text` has to be hexadecimal text of exactly twice as many digits.
pub open spec fn key_material(text: Seq<char>, len: nat) -> Option<Seq<u8>> {
    let digits = vstd::utf8::encode_utf8(text);
    if is_hex_text(digits) && hex_decoded(digits).len() == len {
        Some(hex_decoded(digits))
    } else {
        None
    }
}

/// Whether `text` begins with `start`.
pub open spec fn begins_with(text: Seq<char>, start: Seq<char>) -> bool {
    start.len() <= text.len() && text.subrange(0, start.len() as int) == start
}

/// Bytes as lower-case hexadecimal text, two digits for each byte.
pub fn encode_hex(bytes: &[u8]) -> (text: String)
    ensures
        text@ == hex_encoded(bytes@),
{
    hex_encode(bytes)
}

/// The first `N` bytes of `bytes` as an array.
fn to_array<const N: usize>(bytes: &Vec<u8>) -> (array: [u8; N])
    requires
        bytes.len() == N,
    ensures
        array@ == bytes@,
{
    let mut array: [u8; N] = [0u8; N];
    let mut i: usize = 0;
    while i < N
        invariant
            i <= N,
            bytes.len() == N,
            forall|j: int| 0 <= j < i ==> array[j] == bytes[j],
        decreases N - i,
    {
        array[i] = bytes[i];
        i = i + 1;
    }
    assert(array@ =~= bytes@);
    array
}

/// Reads a public key from its text: 64 hexadecimal digits, of either case.
/// Anything else is a `KeyError`: text that is not hexadecimal with a
/// message that begins `Invalid Hex Public Key: `, hexadecimal text of
/// another length with the message `Invalid Key Length`.
pub fn decode_public_key(text: &str) -> (res: Result<[u8; 32], SdkError>)
    ensures
        match res {
            Ok(key) => key_material(text@, 32) == Some(key@),
            Err(SdkError::KeyError(m)) => key_material(text@, 32) is None && if is_hex_text(
                vstd::utf8::encode_utf8(text@),
            ) {
                m@ == "Invalid Key Length"@
            } else {
                begins_with(m@, "Invalid Hex Public Key: "@)
            },
            Err(_) => false,
        },
{
    match hex_decode(text.as_bytes()) {
        Err(e) => {
            let detail = hex_error_text(&e);
            let m = String::from_str("Invalid Hex Public Key: ").concat(detail.as_str());
            assert(m@.subrange(0, "Invalid Hex Public Key: "@.len() as int)
                =~= "Invalid Hex Public Key: "@);
            Err(SdkError::KeyError(m))
        },
        Ok(bytes) => {
            if bytes.len() == 32 {
                Ok(to_array::<32>(&bytes))
            } else {
                Err(SdkError::KeyError(String::from_str("Invalid Key Length")))
            }
        },
    }
}

/// Reads a signature from its text: 128 hexadecimal digits, of either case.
/// Anything else is a `KeyError`: text that is not hexadecimal with a
/// message that begins `Invalid Hex Signature: `, hexadecimal text of
/// another length with the message `Invalid Signature Length`.
pub fn decode_signature(text: &str) -> (res: Result<[u8; 64], SdkError>)
    ensures
        match res {
            Ok(signature) => key_material(text@, 64) == Some(signature@),
            Err(SdkError::KeyError(m)) => key_material(text@, 64) is None && if is_hex_text(
                vstd::utf8::encode_utf8(text@),
            ) {
                m@ == "Invalid Signature Length"@
            } else {
                begins_with(m@, "Invalid Hex Signature: "@)
            },
            Err(_) => false,
        },
{
    match hex_decode(text.as_bytes()) {
        Err(e) => {
            let detail = hex_error_text(&e);
            let m = String::from_str("Invalid Hex Signature: ").concat(detail.as_str());
            assert(m@.subrange(0, "Invalid Hex Signature: "@.len() as int)
                =~= "Invalid Hex Signature: "@);
            Err(SdkError::KeyError(m))
        },
        Ok(bytes) => {
            if bytes.len() == 64 {
                Ok(to_array::<64>(&bytes))
            } else {
                Err(SdkError::KeyError(String::from_str("Invalid Signature Length")))
            }
        },
    }
}

} // verus!
