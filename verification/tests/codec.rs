use provn_sdk::codec::{decode_public_key, decode_signature, encode_hex};
use provn_sdk::{compute_hash, SdkError};

fn key_error_message<T: std::fmt::Debug>(res: Result<T, SdkError>) -> String {
    match res {
        Err(SdkError::KeyError(message)) => message,
        other => panic!("expected a KeyError, got {:?}", other),
    }
}

#[test]
fn encode_hex_writes_two_lower_case_digits_per_byte() {
    assert_eq!(encode_hex(&[]), "");
    assert_eq!(encode_hex(&[1, 2, 3, 15, 16]), "0102030f10");
    assert_eq!(encode_hex(&[0x00, 0x9a, 0xbc, 0xde, 0xff]), "009abcdeff");
    assert_eq!(encode_hex(&[0u8; 32]).len(), 64);
    assert_eq!(encode_hex(&[0u8; 64]).len(), 128);
}

#[test]
fn decode_public_key_reads_64_digits() {
    let mut expected = [0u8; 32];
    for (i, byte) in expected.iter_mut().enumerate() {
        *byte = (i as u8) * 8 + 1;
    }
    let text = encode_hex(&expected);
    assert_eq!(decode_public_key(&text).unwrap(), expected);
}

#[test]
fn decode_accepts_both_cases() {
    let lower = "ab".repeat(32);
    let upper = "AB".repeat(32);
    let mixed = "aB".repeat(32);
    assert_eq!(decode_public_key(&lower).unwrap(), [0xab; 32]);
    assert_eq!(decode_public_key(&upper).unwrap(), [0xab; 32]);
    assert_eq!(decode_public_key(&mixed).unwrap(), [0xab; 32]);
    assert_eq!(decode_signature(&"Cd".repeat(64)).unwrap(), [0xcd; 64]);
}

#[test]
fn decode_then_encode_gives_the_text_back() {
    let text = "00112233445566778899aabbccddeeff".repeat(2);
    let key = decode_public_key(&text).unwrap();
    assert_eq!(encode_hex(&key), text);
    let text = "0123456789abcdef".repeat(8);
    let signature = decode_signature(&text).unwrap();
    assert_eq!(encode_hex(&signature), text);
}

#[test]
fn public_key_that_is_not_hex_is_a_key_error() {
    let message = key_error_message(decode_public_key(&"zz".repeat(32)));
    assert_eq!(message, "Invalid Hex Public Key: Invalid character 'z' at position 0");
    let message = key_error_message(decode_public_key("abc"));
    assert_eq!(message, "Invalid Hex Public Key: Odd number of digits");
    let message = key_error_message(decode_public_key(&("0g".to_string() + &"00".repeat(31))));
    assert_eq!(message, "Invalid Hex Public Key: Invalid character 'g' at position 1");
    let message = key_error_message(decode_public_key("é0"));
    assert!(message.starts_with("Invalid Hex Public Key: "));
}

#[test]
fn public_key_of_the_wrong_length_is_a_key_error() {
    assert_eq!(key_error_message(decode_public_key(&"00".repeat(31))), "Invalid Key Length");
    assert_eq!(key_error_message(decode_public_key(&"00".repeat(33))), "Invalid Key Length");
    assert_eq!(key_error_message(decode_public_key("")), "Invalid Key Length");
    assert_eq!(key_error_message(decode_public_key(&"00".repeat(64))), "Invalid Key Length");
}

#[test]
fn signature_that_is_not_hex_is_a_key_error() {
    let message = key_error_message(decode_signature(&"xy".repeat(64)));
    assert_eq!(message, "Invalid Hex Signature: Invalid character 'x' at position 0");
    let message = key_error_message(decode_signature("0"));
    assert_eq!(message, "Invalid Hex Signature: Odd number of digits");
}

#[test]
fn signature_of_the_wrong_length_is_a_key_error() {
    assert_eq!(
        key_error_message(decode_signature(&"00".repeat(63))),
        "Invalid Signature Length"
    );
    assert_eq!(
        key_error_message(decode_signature(&"00".repeat(32))),
        "Invalid Signature Length"
    );
    assert_eq!(key_error_message(decode_signature("")), "Invalid Signature Length");
}

#[test]
fn compute_hash_is_sha256_in_hex() {
    assert_eq!(
        compute_hash(b""),
        "e3b0c44298fc1c149afbf4c8996fb92427ae41e4649b934ca495991b7852b855"
    );
    assert_eq!(
        compute_hash(b"abc"),
        "ba7816bf8f01cfea414140de5dae2223b00361a396177a9cb410ff61f20015ad"
    );
    assert_eq!(compute_hash(&[0u8; 1000]).len(), 64);
}
