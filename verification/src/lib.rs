//! An algorithm-agnostic digital-signature abstraction: tagged unions over the
//! signatures and public keys of three supported schemes (ed25519, sr25519 and
//! the recovery-based secp256k1 ECDSA scheme), a uniform verification engine
//! that dispatches on the active variant, and a legacy fixed-size combined
//! signature that is checked against two schemes in sequence.
//!
//! The scheme providers themselves (curve arithmetic, hashing, public-key
//! recovery) are outside collaborators reached through a small set of trusted
//! wrappers; everything built on top of them is verified.

pub mod account;
pub mod any_signature;
pub mod bytes;
pub mod encoding;
pub mod error;
pub mod keys;
pub mod provider;
pub mod signature;
pub mod signer;
pub mod sigs;
pub mod text;
