//! A digest of arbitrary bytes, for claims that name a document instead of
//! holding it.

use vstd::prelude::*;
use sha2::Digest;
use crate::codec::{encode_hex, hex_encoded};

verus! {

/// The SHA-256 digest of a run of bytes.
pub uninterp spec fn sha256_digest(data: Seq<u8>) -> Seq<u8>;

/// `Sha256::new`, `update` and `finalize`: the SHA-256 digest of the input,
/// which is 32 bytes long.
#[verifier::external_body]
fn sha256(data: &[u8]) -> (digest: Vec<u8>)
    ensures
        digest@ == sha256_digest(data@),
        digest@.len() == 32,
{
    let mut hasher = sha2::Sha256::new();
    hasher.update(data);
    hasher.finalize().to_vec()
}

/// The SHA-256 digest of `data` as 64 lower-case hexadecimal digits.
pub fn compute_hash(data: &[u8]) -> (text: String)
    ensures
        text@ == hex_encoded(sha256_digest(data@)),
        text@.len() == 64,
{
    let digest = sha256(data);
    encode_hex(digest.as_slice())
}

} // verus!
