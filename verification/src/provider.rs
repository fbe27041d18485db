use vstd::prelude::*;

verus! {

// The scheme providers are outside collaborators: each verification,
// hashing and recovery primitive is reached through one trusted wrapper,
// and its result is given a name that the rest of the library reasons
// about. Each result is a pure function of the wrapper's arguments.

/// Whether the ed25519 provider accepts `sig` as a signature over `msg`
/// by the key `pk` (64-byte signature, 32-byte key).
pub uninterp spec fn ed25519_accepts(sig: Seq<u8>, msg: Seq<u8>, pk: Seq<u8>) -> bool;

/// Whether the sr25519 provider accepts `sig` as a signature over `msg`
/// by the key `pk` (64-byte signature, 32-byte key).
pub uninterp spec fn sr25519_accepts(sig: Seq<u8>, msg: Seq<u8>, pk: Seq<u8>) -> bool;

/// The provider's fixed 32-byte hash of `data`.
pub uninterp spec fn blake2_256_of(data: Seq<u8>) -> Seq<u8>;

/// The compressed public key recovered from a 65-byte ECDSA signature and a
/// 32-byte digest, or `None` when the signature is structurally unrecoverable.
pub uninterp spec fn secp256k1_recovered(sig: Seq<u8>, digest: Seq<u8>) -> Option<Seq<u8>>;

/// Relies on `sp_core::ed25519::Pair::verify`: the check reads only the
/// signature, message and public-key bytes, and returns whether the
/// signature is valid.
#[verifier::external_body]
pub(crate) fn ed25519_verify(sig: &Vec<u8>, msg: &[u8], pk: &Vec<u8>) -> (r: bool)
    requires
        sig@.len() == 64,
        pk@.len() == 32,
    ensures
        r == ed25519_accepts(sig@, msg@, pk@),
{
    let mut s = [0u8; 64];
    s.copy_from_slice(sig.as_slice());
    let mut p = [0u8; 32];
    p.copy_from_slice(pk.as_slice());
    <sp_core::ed25519::Pair as sp_core::Pair>::verify(
        &sp_core::ed25519::Signature::from_raw(s),
        msg,
        &sp_core::ed25519::Public::from_raw(p),
    )
}

/// Relies on `sp_core::sr25519::Pair::verify`: the check reads only the
/// signature, message and public-key bytes, and returns whether the
/// signature is valid.
#[verifier::external_body]
pub(crate) fn sr25519_verify(sig: &Vec<u8>, msg: &[u8], pk: &Vec<u8>) -> (r: bool)
    requires
        sig@.len() == 64,
        pk@.len() == 32,
    ensures
        r == sr25519_accepts(sig@, msg@, pk@),
{
    let mut s = [0u8; 64];
    s.copy_from_slice(sig.as_slice());
    let mut p = [0u8; 32];
    p.copy_from_slice(pk.as_slice());
    <sp_core::sr25519::Pair as sp_core::Pair>::verify(
        &sp_core::sr25519::Signature::from_raw(s),
        msg,
        &sp_core::sr25519::Public::from_raw(p),
    )
}

/// Relies on `sp_io::hashing::blake2_256`: a 32-byte digest determined by
/// the input bytes alone.
#[verifier::external_body]
pub(crate) fn blake2_256(data: &[u8]) -> (r: Vec<u8>)
    ensures
        r@ == blake2_256_of(data@),
        r@.len() == 32,
{
    sp_io::hashing::blake2_256(data).to_vec()
}

/// Relies on `sp_io::crypto::secp256k1_ecdsa_recover_compressed`: recovery is
/// a pure function of the signature and digest bytes; on success it returns
/// the 33-byte compressed public key, and it fails exactly when the signature
/// is structurally unrecoverable (bad recovery id or malformed r/s values).
#[verifier::external_body]
pub(crate) fn secp256k1_recover_compressed(sig: &Vec<u8>, digest: &Vec<u8>) -> (r: Option<
    Vec<u8>,
>)
    requires
        sig@.len() == 65,
        digest@.len() == 32,
    ensures
        match r {
            Some(pk) => secp256k1_recovered(sig@, digest@) == Some(pk@) && pk@.len() == 33,
            None => secp256k1_recovered(sig@, digest@) is None,
        },
{
    let mut s = [0u8; 65];
    s.copy_from_slice(sig.as_slice());
    let mut d = [0u8; 32];
    d.copy_from_slice(digest.as_slice());
    match sp_io::crypto::secp256k1_ecdsa_recover_compressed(&s, &d) {
        Ok(pk) => Some(pk.to_vec()),
        Err(_) => None,
    }
}

} // verus!
