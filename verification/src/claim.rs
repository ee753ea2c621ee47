//! Claims and signed claims, with the mathematical values that the contracts
//! of the library speak of.

use vstd::prelude::*;
use vstd::string::*;
use crate::canonical::{
    canonical_bytes, push_data_key, push_decimal, push_json_string, push_metadata_key,
    push_timestamp_key, ClaimView,
};
use crate::error::SdkError;

verus! {

/// A statement to be signed: some text, an optional note and the time at
/// which it was made, in seconds since the Unix epoch.
#[derive(Debug, PartialEq)]
pub struct Claim {
    /// The text of the claim.
    pub data: String,
    /// A free note; absent, it leaves no trace in the canonical form.
    pub metadata: Option<String>,
    /// Seconds since the Unix epoch, UTC.
    pub timestamp: u64,
}

/// A claim together with the public key of its signer and the signature,
/// both as hexadecimal text.
#[derive(Debug)]
pub struct SignedClaim {
    /// The claim that was signed.
    pub claim: Claim,
    /// The signer's public key: 64 hexadecimal digits.
    pub public_key: String,
    /// The signature over the canonical bytes of the claim: 128 hexadecimal digits.
    pub signature: String,
}

/// A signed claim as a mathematical value.
pub struct SignedClaimView {
    pub claim: ClaimView,
    pub public_key: Seq<char>,
    pub signature: Seq<char>,
}

impl View for Claim {
    type V = ClaimView;

    open spec fn view(&self) -> ClaimView {
        ClaimView {
            data: self.data@,
            metadata: match self.metadata {
                Some(m) => Some(m@),
                None => None,
            },
            timestamp: self.timestamp,
        }
    }
}

impl View for SignedClaim {
    type V = SignedClaimView;

    open spec fn view(&self) -> SignedClaimView {
        SignedClaimView {
            claim: self.claim@,
            public_key: self.public_key@,
            signature: self.signature@,
        }
    }
}

impl Clone for Claim {
    fn clone(&self) -> (copy: Self)
        ensures
            copy == *self,
    {
        Claim {
            data: self.data.clone(),
            metadata: match &self.metadata {
                Some(m) => Some(m.clone()),
                None => None,
            },
            timestamp: self.timestamp,
        }
    }
}

impl Clone for SignedClaim {
    fn clone(&self) -> (copy: Self)
        ensures
            copy == *self,
    {
        SignedClaim {
            claim: self.claim.clone(),
            public_key: self.public_key.clone(),
            signature: self.signature.clone(),
        }
    }
}

#[verifier::external_type_specification]
#[verifier::external_body]
pub struct ExSystemTime(std::time::SystemTime);

#[verifier::external_type_specification]
#[verifier::external_body]
pub struct ExSystemTimeError(std::time::SystemTimeError);

/// `SystemTime::now`: what the system clock shows. Nothing is claimed of it.
#[verifier::external_body]
fn clock_reading() -> std::time::SystemTime {
    std::time::SystemTime::now()
}

/// `SystemTime::duration_since` with `UNIX_EPOCH`: the time that has passed
/// since the epoch, or an error where the reading stands before it. Nothing
/// is claimed of either.
#[verifier::external_body]
fn since_epoch(reading: &std::time::SystemTime) -> Result<
    std::time::Duration,
    std::time::SystemTimeError,
> {
    reading.duration_since(std::time::UNIX_EPOCH)
}

/// `Duration::as_secs`: the whole seconds of a span of time. Nothing is
/// claimed of the number.
#[verifier::external_body]
fn whole_seconds(elapsed: &std::time::Duration) -> u64 {
    elapsed.as_secs()
}

/// The timestamp for a reading of the clock in seconds since the epoch:
/// the reading itself, and zero where the clock stands before the epoch.
pub fn timestamp_of(reading: Option<u64>) -> (timestamp: u64)
    ensures
        timestamp == (match reading {
            Some(seconds) => seconds,
            None => 0,
        }),
{
    match reading {
        Some(seconds) => seconds,
        None => 0,
    }
}

impl Claim {
    /// A claim without a note, made now: its time is what the system clock
    /// shows, or zero where the clock stands before the epoch.
    pub fn new(data: String) -> (claim: Self)
        ensures
            claim.data == data,
            claim.metadata is None,
    {
        let now = clock_reading();
        let reading: Option<u64> = match since_epoch(&now) {
            Ok(elapsed) => Some(whole_seconds(&elapsed)),
            Err(_) => None,
        };
        Claim::new_with_timestamp(data, timestamp_of(reading))
    }

    /// A claim without a note, made at the given time.
    pub fn new_with_timestamp(data: String, timestamp: u64) -> (claim: Self)
        ensures
            claim.data == data,
            claim.metadata is None,
            claim.timestamp == timestamp,
    {
        Claim { data, metadata: None, timestamp }
    }

    /// The bytes that are signed: the canonical form of the claim.
    pub fn to_signable_bytes(&self) -> (res: Result<Vec<u8>, SdkError>)
        ensures
            res matches Ok(bytes) && bytes@ == canonical_bytes(self@),
    {
        let mut out: Vec<u8> = Vec::new();
        push_data_key(&mut out);
        push_json_string(&mut out, self.data.as_str());
        match &self.metadata {
            Some(m) => {
                push_metadata_key(&mut out);
                push_json_string(&mut out, m.as_str());
            },
            None => {},
        }
        push_timestamp_key(&mut out);
        push_decimal(&mut out, self.timestamp);
        out.push(0x7d);
        assert(out@ =~= canonical_bytes(self@));
        Ok(out)
    }
}

} // verus!
