use provn_sdk::error::{serialization_failure, signature_failure};
use provn_sdk::SdkError;

#[test]
fn errors_read_as_heading_and_message() {
    assert_eq!(
        SdkError::SerializationError("bad text".to_string()).to_string(),
        "Serialization failed: bad text"
    );
    assert_eq!(
        SdkError::SignatureError("no match".to_string()).to_string(),
        "Invalid signature: no match"
    );
    assert_eq!(
        SdkError::KeyError("Invalid Key Length".to_string()).to_string(),
        "Key format error: Invalid Key Length"
    );
    assert_eq!(SdkError::KeyError(String::new()).to_string(), "Key format error: ");
}

#[test]
fn a_json_failure_becomes_a_serialization_error() {
    let failure = serde_json::from_str::<serde_json::Value>("{").unwrap_err();
    let words = failure.to_string();
    match SdkError::from(failure) {
        SdkError::SerializationError(message) => {
            assert_eq!(message, words);
            assert_eq!(message, "EOF while parsing an object at line 1 column 1");
        }
        other => panic!("expected a SerializationError, got {:?}", other),
    }
}

#[test]
fn a_scheme_failure_becomes_a_signature_error() {
    let mut bytes = [0u8; 32];
    bytes[0] = 2;
    let failure = ed25519_dalek::VerifyingKey::from_bytes(&bytes).unwrap_err();
    let words = failure.to_string();
    match SdkError::from(failure) {
        SdkError::SignatureError(message) => {
            assert_eq!(message, words);
            assert_eq!(message, "signature error: Cannot decompress Edwards point");
        }
        other => panic!("expected a SignatureError, got {:?}", other),
    }
}

#[test]
fn failures_carry_their_words_whole() {
    match serialization_failure("EOF while parsing".to_string()) {
        SdkError::SerializationError(message) => assert_eq!(message, "EOF while parsing"),
        other => panic!("expected a SerializationError, got {:?}", other),
    }
    match signature_failure("signature error".to_string()) {
        SdkError::SignatureError(message) => assert_eq!(message, "signature error"),
        other => panic!("expected a SignatureError, got {:?}", other),
    }
}
