//! The error type shared by every fallible operation of the library.

use vstd::prelude::*;
use vstd::string::*;
use vstd::std_specs::convert::FromSpecImpl;
use crate::keys::{signature_error_text, signature_error_words};

verus! {

/// What went wrong, with a message for a human reader.
#[derive(Debug)]
pub enum SdkError {
    /// The interchange text of a claim could not be written or read.
    SerializationError(String),
    /// The signature scheme rejected a key or a signature.
    SignatureError(String),
    /// A key or a signature is not hexadecimal text of the right length.
    KeyError(String),
}

impl SdkError {
    /// The message that the error carries.
    pub open spec fn message(&self) -> Seq<char> {
        match self {
            SdkError::SerializationError(m) => m@,
            SdkError::SignatureError(m) => m@,
            SdkError::KeyError(m) => m@,
        }
    }

    /// The words that introduce the message of each kind of error.
    pub open spec fn heading(&self) -> Seq<char> {
        match self {
            SdkError::SerializationError(_) => "Serialization failed: "@,
            SdkError::SignatureError(_) => "Invalid signature: "@,
            SdkError::KeyError(_) => "Key format error: "@,
        }
    }

    /// The error as one line of text: the heading of its kind, then its message.
    pub fn to_string(&self) -> (text: String)
        ensures
            text@ == self.heading() + self.message(),
    {
        match self {
            SdkError::SerializationError(m) => String::from_str("Serialization failed: ").concat(
                m.as_str(),
            ),
            SdkError::SignatureError(m) => String::from_str("Invalid signature: ").concat(
                m.as_str(),
            ),
            SdkError::KeyError(m) => String::from_str("Key format error: ").concat(m.as_str()),
        }
    }
}

#[verifier::external_type_specification]
#[verifier::external_body]
pub struct ExJsonError(serde_json::Error);

/// The words in which `serde_json` describes a failure.
pub uninterp spec fn json_error_words(e: serde_json::Error) -> Seq<char>;

/// The `Display` text of a `serde_json::Error`, which depends on the error
/// alone.
#[verifier::external_body]
fn json_error_text(e: &serde_json::Error) -> (text: String)
    ensures
        text@ == json_error_words(*e),
{
    e.to_string()
}

/// The `SerializationError` that carries the given words, whole.
pub fn serialization_failure(words: String) -> (err: SdkError)
    ensures
        err == SdkError::SerializationError(words),
{
    SdkError::SerializationError(words)
}

/// The `SignatureError` that carries the given words, whole.
pub fn signature_failure(words: String) -> (err: SdkError)
    ensures
        err == SdkError::SignatureError(words),
{
    SdkError::SignatureError(words)
}

impl From<serde_json::Error> for SdkError {
    /// A failure to write or read interchange text, as a
    /// `SerializationError` that carries the failure's own words, whole.
    fn from(e: serde_json::Error) -> (err: SdkError)
        ensures
            err is SerializationError,
            err.message() == json_error_words(e),
    {
        serialization_failure(json_error_text(&e))
    }
}

/// The error that comes back holds a `String`, which no spec function can
/// build from the failure's words: `from` states its kind and its message.
impl FromSpecImpl<serde_json::Error> for SdkError {
    open spec fn obeys_from_spec() -> bool {
        false
    }

    open spec fn from_spec(e: serde_json::Error) -> SdkError {
        arbitrary()
    }
}

impl From<ed25519_dalek::SignatureError> for SdkError {
    /// A rejection by the signature scheme, as a `SignatureError` that
    /// carries the scheme's own words, whole.
    fn from(e: ed25519_dalek::SignatureError) -> (err: SdkError)
        ensures
            err is SignatureError,
            err.message() == signature_error_words(e),
    {
        signature_failure(signature_error_text(&e))
    }
}

/// The error that comes back holds a `String`, which no spec function can
/// build from the scheme's words: `from` states its kind and its message.
impl FromSpecImpl<ed25519_dalek::SignatureError> for SdkError {
    open spec fn obeys_from_spec() -> bool {
        false
    }

    open spec fn from_spec(e: ed25519_dalek::SignatureError) -> SdkError {
        arbitrary()
    }
}

} // verus!
