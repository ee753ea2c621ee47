//! Ed25519 key material, and the calls into the signature scheme.

use vstd::prelude::*;
use ed25519_dalek::Signer;
use ed25519_dalek::Verifier;

verus! {

/// The public key that Ed25519 derives from a 32-byte secret.
pub uninterp spec fn ed25519_public_key(secret: Seq<u8>) -> Seq<u8>;

/// The signature that Ed25519 gives a message under a 32-byte secret. The
/// scheme is deterministic: it draws no randomness when it signs.
pub uninterp spec fn ed25519_signature(secret: Seq<u8>, message: Seq<u8>) -> Seq<u8>;

/// Whether 32 bytes are the encoding of a point of the curve, that is,
/// whether they are accepted as a public key.
pub uninterp spec fn ed25519_key_valid(public_key: Seq<u8>) -> bool;

/// Whether a signature is accepted for a message under a valid public key.
pub uninterp spec fn ed25519_verifies(
    public_key: Seq<u8>,
    message: Seq<u8>,
    signature: Seq<u8>,
) -> bool;

/// The words in which the scheme describes a failure.
pub uninterp spec fn signature_error_words(e: ed25519_dalek::SignatureError) -> Seq<char>;

/// Whether the bytes are a key under which the signature is accepted for
/// the message.
pub open spec fn accepted(public_key: Seq<u8>, message: Seq<u8>, signature: Seq<u8>) -> bool {
    ed25519_key_valid(public_key) && ed25519_verifies(public_key, message, signature)
}

#[verifier::external_type_specification]
#[verifier::external_body]
pub struct ExSignatureError(ed25519_dalek::SignatureError);

/// A signing key with its public half. It is made here and is never part of
/// a signed claim: only the public key, derived from it, is.
pub struct Keypair {
    secret: [u8; 32],
}

impl View for Keypair {
    type V = Seq<u8>;

    /// The 32 secret bytes.
    closed spec fn view(&self) -> Seq<u8> {
        self.secret@
    }
}

impl Keypair {
    /// The key pair of the given secret bytes.
    pub fn from_bytes(secret: &[u8; 32]) -> (pair: Keypair)
        ensures
            pair@ == secret@,
    {
        Keypair { secret: *secret }
    }

    /// The secret bytes of the pair.
    pub fn to_bytes(&self) -> (secret: [u8; 32])
        ensures
            secret@ == self@,
    {
        self.secret
    }

    /// The public key of the pair, which the scheme accepts as a key.
    pub fn verifying_key_bytes(&self) -> (public_key: [u8; 32])
        ensures
            public_key@ == ed25519_public_key(self@),
            ed25519_key_valid(public_key@),
    {
        derive_public_key(&self.secret)
    }

    /// The signature of `message` under the pair, which its public key
    /// verifies.
    pub fn sign(&self, message: &[u8]) -> (signature: [u8; 64])
        ensures
            signature@ == ed25519_signature(self@, message@),
            ed25519_verifies(ed25519_public_key(self@), message@, signature@),
    {
        sign_message(&self.secret, message)
    }
}

/// A key pair of fresh secret bytes from the operating system's source of
/// randomness: 32 of them; which, nothing says.
pub fn generate_keypair() -> (pair: Keypair)
    ensures
        pair@.len() == 32,
{
    let secret = random_secret();
    Keypair::from_bytes(&secret)
}

/// `SigningKey::generate` with `OsRng`: 32 bytes from the operating system's
/// source of randomness. Nothing is claimed of them.
#[verifier::external_body]
fn random_secret() -> [u8; 32] {
    ed25519_dalek::SigningKey::generate(&mut rand::rngs::OsRng).to_bytes()
}

/// `SigningKey::from_bytes` followed by `verifying_key`: the public key that
/// belongs to the secret, in its 32-byte encoding, which
/// `VerifyingKey::from_bytes` reads back as a key.
#[verifier::external_body]
fn derive_public_key(secret: &[u8; 32]) -> (public_key: [u8; 32])
    ensures
        public_key@ == ed25519_public_key(secret@),
        ed25519_key_valid(public_key@),
{
    ed25519_dalek::SigningKey::from_bytes(secret).verifying_key().to_bytes()
}

/// `Signer::sign` of a `SigningKey`: the Ed25519 signature of the message,
/// a function of secret and message alone, which verifies under the public
/// key of the same secret.
#[verifier::external_body]
fn sign_message(secret: &[u8; 32], message: &[u8]) -> (signature: [u8; 64])
    ensures
        signature@ == ed25519_signature(secret@, message@),
        ed25519_verifies(ed25519_public_key(secret@), message@, signature@),
{
    ed25519_dalek::SigningKey::from_bytes(secret).sign(message).to_bytes()
}

/// `VerifyingKey::from_bytes` and then `Verifier::verify` of the key:
/// succeeds exactly when the bytes are a key and the signature is accepted
/// for the message under it.
#[verifier::external_body]
pub(crate) fn verify_message(public_key: &[u8; 32], message: &[u8], signature: &[u8; 64]) -> (res:
    Result<(), ed25519_dalek::SignatureError>)
    ensures
        res is Ok <==> accepted(public_key@, message@, signature@),
{
    let key = ed25519_dalek::VerifyingKey::from_bytes(public_key)?;
    key.verify(message, &ed25519_dalek::Signature::from_bytes(signature))
}

/// The `Display` text of an `ed25519_dalek::SignatureError`, which depends
/// on the error alone.
#[verifier::external_body]
pub(crate) fn signature_error_text(e: &ed25519_dalek::SignatureError) -> (text: String)
    ensures
        text@ == signature_error_words(*e),
{
    e.to_string()
}

} // verus!
