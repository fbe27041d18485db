use vstd::prelude::*;
use crate::account::AccountId32;
use crate::bytes::{bytes_eq, zero_bytes, zero_seq};
use crate::error::WrongVariant;
use crate::provider::{
    blake2_256, blake2_256_of, ed25519_accepts, ed25519_verify, secp256k1_recover_compressed,
    secp256k1_recovered, sr25519_accepts, sr25519_verify,
};
use crate::sigs::{EcdsaSignature, Ed25519Signature, Sr25519Signature};

verus! {

/// A signature produced by any one of the supported schemes.
///
/// Exactly one variant is populated at a time; verification dispatches on
/// that variant and never tries another scheme.
#[derive(Clone, PartialEq, Eq, Debug)]
pub enum MultiSignature {
    /// An ed25519 signature.
    Ed25519(Ed25519Signature),
    /// An sr25519 signature.
    Sr25519(Sr25519Signature),
    /// An ECDSA/secp256k1 signature.
    Ecdsa(EcdsaSignature),
}

/// The recovery-based check: hash the message, recover the public key from
/// the signature and digest, and compare the hash of the recovered key with
/// the claimed 32-byte account. An unrecoverable signature verifies as false.
pub open spec fn ecdsa_recovery_check(sig: Seq<u8>, msg: Seq<u8>, who: Seq<u8>) -> bool {
    match secp256k1_recovered(sig, blake2_256_of(msg)) {
        Some(pk) => blake2_256_of(pk) == who,
        None => false,
    }
}

impl MultiSignature {
    /// The active variant's payload has the fixed size its scheme demands.
    pub open spec fn wf(&self) -> bool {
        match self {
            MultiSignature::Ed25519(x) => x.wf(),
            MultiSignature::Sr25519(x) => x.wf(),
            MultiSignature::Ecdsa(x) => x.wf(),
        }
    }

    /// The raw signature bytes of the active variant.
    pub open spec fn payload(&self) -> Seq<u8> {
        match self {
            MultiSignature::Ed25519(x) => x@,
            MultiSignature::Sr25519(x) => x@,
            MultiSignature::Ecdsa(x) => x@,
        }
    }

    /// The discriminant that the serialized form carries for the active variant.
    pub open spec fn discriminant(&self) -> u8 {
        match self {
            MultiSignature::Ed25519(_) => 0u8,
            MultiSignature::Sr25519(_) => 1u8,
            MultiSignature::Ecdsa(_) => 2u8,
        }
    }

    /// What verification returns: the active scheme's own acceptance of the
    /// signature over the message, against the claimed 32-byte account.
    pub open spec fn spec_verify(&self, msg: Seq<u8>, who: Seq<u8>) -> bool {
        match self {
            MultiSignature::Ed25519(sig) => ed25519_accepts(sig@, msg, who),
            MultiSignature::Sr25519(sig) => sr25519_accepts(sig@, msg, who),
            MultiSignature::Ecdsa(sig) => ecdsa_recovery_check(sig@, msg, who),
        }
    }

    /// Verifies the signature over `msg` against the claimed account.
    ///
    /// The two direct schemes reinterpret the account's 32 bytes as a public
    /// key of their own scheme; the recovery-based scheme hashes the message
    /// once, recovers the signer's key and compares its hash with the
    /// account. A failed recovery is a verification failure, not an error.
    pub fn verify(&self, msg: &[u8], signer: &AccountId32) -> (r: bool)
        requires
            self.wf(),
            signer.wf(),
        ensures
            r == self.spec_verify(msg@, signer@),
    {
        match self {
            MultiSignature::Ed25519(sig) => ed25519_verify(&sig.bytes, msg, &signer.bytes),
            MultiSignature::Sr25519(sig) => sr25519_verify(&sig.bytes, msg, &signer.bytes),
            MultiSignature::Ecdsa(sig) => {
                let digest = blake2_256(msg);
                match secp256k1_recover_compressed(&sig.bytes, &digest) {
                    Some(pk) => {
                        let hashed = blake2_256(pk.as_slice());
                        bytes_eq(&hashed, &signer.bytes)
                    },
                    None => false,
                }
            },
        }
    }

    pub open spec fn spec_try_into_ed25519(self) -> Result<Ed25519Signature, WrongVariant> {
        match self {
            MultiSignature::Ed25519(x) => Ok(x),
            _ => Err(WrongVariant),
        }
    }

    /// The ed25519 signature held by this union, or `WrongVariant` when
    /// another scheme is active.
    pub fn try_into_ed25519(self) -> (r: Result<Ed25519Signature, WrongVariant>)
        ensures
            r == self.spec_try_into_ed25519(),
    {
        match self {
            MultiSignature::Ed25519(x) => Ok(x),
            _ => Err(WrongVariant),
        }
    }

    pub open spec fn spec_try_into_sr25519(self) -> Result<Sr25519Signature, WrongVariant> {
        match self {
            MultiSignature::Sr25519(x) => Ok(x),
            _ => Err(WrongVariant),
        }
    }

    /// The sr25519 signature held by this union, or `WrongVariant` when
    /// another scheme is active.
    pub fn try_into_sr25519(self) -> (r: Result<Sr25519Signature, WrongVariant>)
        ensures
            r == self.spec_try_into_sr25519(),
    {
        match self {
            MultiSignature::Sr25519(x) => Ok(x),
            _ => Err(WrongVariant),
        }
    }

    pub open spec fn spec_try_into_ecdsa(self) -> Result<EcdsaSignature, WrongVariant> {
        match self {
            MultiSignature::Ecdsa(x) => Ok(x),
            _ => Err(WrongVariant),
        }
    }

    /// The ECDSA signature held by this union, or `WrongVariant` when
    /// another scheme is active.
    pub fn try_into_ecdsa(self) -> (r: Result<EcdsaSignature, WrongVariant>)
        ensures
            r == self.spec_try_into_ecdsa(),
    {
        match self {
            MultiSignature::Ecdsa(x) => Ok(x),
            _ => Err(WrongVariant),
        }
    }
}

impl From<Ed25519Signature> for MultiSignature {
    fn from(x: Ed25519Signature) -> (r: MultiSignature) {
        MultiSignature::Ed25519(x)
    }
}

impl vstd::std_specs::convert::FromSpecImpl<Ed25519Signature> for MultiSignature {
    open spec fn obeys_from_spec() -> bool {
        true
    }

    open spec fn from_spec(x: Ed25519Signature) -> MultiSignature {
        MultiSignature::Ed25519(x)
    }
}

impl From<Sr25519Signature> for MultiSignature {
    fn from(x: Sr25519Signature) -> (r: MultiSignature) {
        MultiSignature::Sr25519(x)
    }
}

impl vstd::std_specs::convert::FromSpecImpl<Sr25519Signature> for MultiSignature {
    open spec fn obeys_from_spec() -> bool {
        true
    }

    open spec fn from_spec(x: Sr25519Signature) -> MultiSignature {
        MultiSignature::Sr25519(x)
    }
}

impl From<EcdsaSignature> for MultiSignature {
    fn from(x: EcdsaSignature) -> (r: MultiSignature) {
        MultiSignature::Ecdsa(x)
    }
}

impl vstd::std_specs::convert::FromSpecImpl<EcdsaSignature> for MultiSignature {
    open spec fn obeys_from_spec() -> bool {
        true
    }

    open spec fn from_spec(x: EcdsaSignature) -> MultiSignature {
        MultiSignature::Ecdsa(x)
    }
}

impl Default for MultiSignature {
    /// The canonical placeholder: the first variant with a zero-filled
    /// payload. It is cryptographically meaningless and exists only to
    /// satisfy generic code that demands a default value; it must never be
    /// treated as "no signature".
    fn default() -> (r: MultiSignature)
        ensures
            r is Ed25519,
            r.payload() == zero_seq(64),
            r.wf(),
    {
        MultiSignature::Ed25519(Ed25519Signature::from_raw(zero_bytes(64)))
    }
}

/// Law: wrapping a scheme-specific signature and extracting that same
/// scheme's value returns it unchanged; extracting any other scheme's value
/// fails with `WrongVariant`.
pub proof fn lemma_signature_extraction_consistency(
    x: Ed25519Signature,
    y: Sr25519Signature,
    z: EcdsaSignature,
)
    ensures
        MultiSignature::Ed25519(x).spec_try_into_ed25519() == Ok::<_, WrongVariant>(x),
        MultiSignature::Sr25519(y).spec_try_into_sr25519() == Ok::<_, WrongVariant>(y),
        MultiSignature::Ecdsa(z).spec_try_into_ecdsa() == Ok::<_, WrongVariant>(z),
        MultiSignature::Ed25519(x).spec_try_into_sr25519() == Err::<Sr25519Signature, _>(
            WrongVariant,
        ),
        MultiSignature::Ed25519(x).spec_try_into_ecdsa() == Err::<EcdsaSignature, _>(WrongVariant),
        MultiSignature::Sr25519(y).spec_try_into_ed25519() == Err::<Ed25519Signature, _>(
            WrongVariant,
        ),
        MultiSignature::Sr25519(y).spec_try_into_ecdsa() == Err::<EcdsaSignature, _>(WrongVariant),
        MultiSignature::Ecdsa(z).spec_try_into_ed25519() == Err::<Ed25519Signature, _>(
            WrongVariant,
        ),
        MultiSignature::Ecdsa(z).spec_try_into_sr25519() == Err::<Sr25519Signature, _>(
            WrongVariant,
        ),
{
}

/// Law: for the recovery-based scheme a signature and message determine at
/// most one account that verifies: two accounts that both verify are equal.
pub proof fn lemma_ecdsa_verify_unique_account(
    sig: EcdsaSignature,
    msg: Seq<u8>,
    who_a: Seq<u8>,
    who_b: Seq<u8>,
)
    requires
        MultiSignature::Ecdsa(sig).spec_verify(msg, who_a),
        MultiSignature::Ecdsa(sig).spec_verify(msg, who_b),
    ensures
        who_a == who_b,
{
}

} // verus!
