//! Signing a claim and verifying a signed claim.

use vstd::prelude::*;
use vstd::string::*;
use vstd::utf8::encode_utf8;
use crate::canonical::canonical_bytes;
use crate::claim::{Claim, SignedClaim, SignedClaimView};
use crate::codec::{
    begins_with, decode_public_key, decode_signature, encode_hex, hex_decoded, hex_encoded,
    is_hex_text, lemma_hex_round_trip,
};
use crate::error::SdkError;
use crate::proofs::lemma_canonical_injective;
use crate::keys::{
    accepted, ed25519_key_valid, ed25519_public_key, ed25519_signature,
    ed25519_verifies, verify_message, Keypair,
};

verus! {

/// How the verification of a signed claim ends. The steps are taken in the
/// order of the variants; the first that fails decides. Both texts are read,
/// the key first, before the scheme is asked anything.
pub enum Outcome {
    /// The public key is not hexadecimal text.
    KeyNotHex,
    /// The public key is hexadecimal text, but not of 32 bytes.
    KeyLength,
    /// The signature is not hexadecimal text.
    SignatureNotHex,
    /// The signature is hexadecimal text, but not of 64 bytes.
    SignatureLength,
    /// The 32 bytes are not a public key of the scheme.
    KeyRejected,
    /// The signature is not one of this key over the canonical bytes of the
    /// embedded claim.
    Mismatch,
    /// The signature is one of this key over the canonical bytes of the
    /// embedded claim.
    Valid,
}

/// The outcome of verifying a signed claim, from the signed claim alone.
pub open spec fn verification(signed: SignedClaimView) -> Outcome {
    let key_text = encode_utf8(signed.public_key);
    let signature_text = encode_utf8(signed.signature);
    if !is_hex_text(key_text) {
        Outcome::KeyNotHex
    } else if hex_decoded(key_text).len() != 32 {
        Outcome::KeyLength
    } else if !is_hex_text(signature_text) {
        Outcome::SignatureNotHex
    } else if hex_decoded(signature_text).len() != 64 {
        Outcome::SignatureLength
    } else if !ed25519_key_valid(hex_decoded(key_text)) {
        Outcome::KeyRejected
    } else if !ed25519_verifies(
        hex_decoded(key_text),
        canonical_bytes(signed.claim),
        hex_decoded(signature_text),
    ) {
        Outcome::Mismatch
    } else {
        Outcome::Valid
    }
}

/// What signing a claim under a secret gives: the claim itself, the public
/// key of the secret and the signature over the claim's canonical bytes,
/// both as hexadecimal text.
pub open spec fn signed_under(claim: Claim, secret: Seq<u8>) -> SignedClaimView {
    SignedClaimView {
        claim: claim@,
        public_key: hex_encoded(ed25519_public_key(secret)),
        signature: hex_encoded(ed25519_signature(secret, canonical_bytes(claim@))),
    }
}

/// Round trip: what signing gives passes verification, as long as the
/// scheme accepts the public key that it derived from the secret and the
/// signature that it gave under it. Signing has both from the scheme.
pub proof fn lemma_signed_claim_verifies(claim: Claim, secret: Seq<u8>)
    requires
        ed25519_public_key(secret).len() == 32,
        ed25519_signature(secret, canonical_bytes(claim@)).len() == 64,
        accepted(
            ed25519_public_key(secret),
            canonical_bytes(claim@),
            ed25519_signature(secret, canonical_bytes(claim@)),
        ),
    ensures
        verification(signed_under(claim, secret)) == Outcome::Valid,
{
    lemma_hex_round_trip(ed25519_public_key(secret));
    lemma_hex_round_trip(ed25519_signature(secret, canonical_bytes(claim@)));
}

/// A signed claim whose embedded claim was changed in any field is checked
/// against other bytes than the signed ones: it passes verification only if
/// the scheme accepts the old signature for the new bytes as well.
pub proof fn lemma_changed_claim_is_checked_anew(signed: SignedClaimView, changed: SignedClaimView)
    requires
        verification(signed) == Outcome::Valid,
        changed.public_key == signed.public_key,
        changed.signature == signed.signature,
        changed.claim != signed.claim,
    ensures
        canonical_bytes(changed.claim) != canonical_bytes(signed.claim),
        verification(changed) == Outcome::Valid || verification(changed) == Outcome::Mismatch,
        verification(changed) == Outcome::Valid <==> ed25519_verifies(
            hex_decoded(encode_utf8(signed.public_key)),
            canonical_bytes(changed.claim),
            hex_decoded(encode_utf8(signed.signature)),
        ),
{
    if canonical_bytes(changed.claim) == canonical_bytes(signed.claim) {
        lemma_canonical_injective(changed.claim, signed.claim);
    }
}

/// A signed claim whose public key was replaced by the text of any other
/// 32 bytes is still well-formed input: verification never ends in a
/// `KeyError`, and it passes only if those bytes are a key under which the
/// scheme accepts the old signature.
pub proof fn lemma_other_key_is_asked(signed: SignedClaimView, other_key: Seq<u8>)
    requires
        verification(signed) == Outcome::Valid,
        other_key.len() == 32,
    ensures
        ({
            let changed = SignedClaimView { public_key: hex_encoded(other_key), ..signed };
            &&& verification(changed) == Outcome::Valid || verification(changed)
                == Outcome::Mismatch || verification(changed) == Outcome::KeyRejected
            &&& verification(changed) == Outcome::Valid <==> accepted(
                other_key,
                canonical_bytes(signed.claim),
                hex_decoded(encode_utf8(signed.signature)),
            )
        }),
{
    lemma_hex_round_trip(other_key);
}

/// Signs a claim: always succeeds, and the signed claim that it returns
/// embeds a copy of the claim and passes verification.
pub fn sign_claim(claim: &Claim, key: &Keypair) -> (res: Result<SignedClaim, SdkError>)
    ensures
        res matches Ok(signed) && signed.claim == *claim && signed@ == signed_under(*claim, key@)
            && verification(signed@) == Outcome::Valid,
{
    let bytes = claim.to_signable_bytes()?;
    let signature = key.sign(bytes.as_slice());
    let public_key = key.verifying_key_bytes();
    let signed = SignedClaim {
        claim: claim.clone(),
        public_key: encode_hex(public_key.as_slice()),
        signature: encode_hex(signature.as_slice()),
    };
    proof {
        lemma_signed_claim_verifies(*claim, key@);
    }
    Ok(signed)
}

/// Verifies a signed claim from nothing but itself: reads the public key,
/// then the signature, rebuilds the canonical bytes of the embedded claim
/// and only then asks the scheme. `Ok(true)` is the only success; text that is no key
/// or no signature is a `KeyError`, a key or signature that the scheme
/// turns down is a `SignatureError`.
pub fn verify_claim(signed_claim: &SignedClaim) -> (res: Result<bool, SdkError>)
    ensures
        match verification(signed_claim@) {
            Outcome::KeyNotHex => res matches Err(SdkError::KeyError(m)) && begins_with(
                m@,
                "Invalid Hex Public Key: "@,
            ),
            Outcome::KeyLength => res matches Err(SdkError::KeyError(m)) && m@
                == "Invalid Key Length"@,
            Outcome::SignatureNotHex => res matches Err(SdkError::KeyError(m)) && begins_with(
                m@,
                "Invalid Hex Signature: "@,
            ),
            Outcome::SignatureLength => res matches Err(SdkError::KeyError(m)) && m@
                == "Invalid Signature Length"@,
            Outcome::KeyRejected => res matches Err(SdkError::SignatureError(_)),
            Outcome::Mismatch => res matches Err(SdkError::SignatureError(_)),
            Outcome::Valid => res == Ok::<bool, SdkError>(true),
        },
{
    let public_key = decode_public_key(signed_claim.public_key.as_str())?;
    let signature = decode_signature(signed_claim.signature.as_str())?;
    let message = signed_claim.claim.to_signable_bytes()?;
    match verify_message(&public_key, message.as_slice(), &signature) {
        Ok(()) => Ok(true),
        Err(e) => Err(SdkError::from(e)),
    }
}

} // verus!
