//! Signed claims: a piece of text and a timestamp, written in one canonical
//! byte form, signed with Ed25519 and checked by anyone who holds the
//! signed claim alone.

pub mod canonical;
pub mod claim;
pub mod codec;
pub mod error;
pub mod hash;
pub mod keys;
pub mod proofs;
pub mod signing;

pub use claim::{Claim, SignedClaim};
pub use error::SdkError;
pub use hash::compute_hash;
pub use keys::{generate_keypair, Keypair};
pub use signing::{sign_claim, verify_claim};
