use vstd::prelude::*;
use crate::account::AccountId32;
use crate::bytes::{zero_bytes, zero_seq};
use crate::error::WrongVariant;
use crate::keys::{EcdsaPublic, Ed25519Public, Sr25519Public};
use crate::provider::{blake2_256, blake2_256_of};

verus! {

/// A signer's public key under any one of the supported schemes.
///
/// Ordered derives are provided so identities can serve as map keys; the
/// derived order is variant first, then payload bytes.
#[derive(Clone, PartialEq, Eq, PartialOrd, Ord, Debug)]
pub enum MultiSigner {
    /// An ed25519 identity.
    Ed25519(Ed25519Public),
    /// An sr25519 identity.
    Sr25519(Sr25519Public),
    /// An ECDSA/secp256k1 identity: the 33-byte compressed public key.
    Ecdsa(EcdsaPublic),
}

impl MultiSigner {
    /// The active variant's payload has the fixed size its scheme demands.
    pub open spec fn wf(&self) -> bool {
        match self {
            MultiSigner::Ed25519(k) => k.wf(),
            MultiSigner::Sr25519(k) => k.wf(),
            MultiSigner::Ecdsa(k) => k.wf(),
        }
    }

    /// The raw public-key bytes of the active variant. Lengths differ per
    /// scheme: 32 bytes for the direct schemes, 33 for the recovery-based one.
    pub open spec fn payload(&self) -> Seq<u8> {
        match self {
            MultiSigner::Ed25519(k) => k@,
            MultiSigner::Sr25519(k) => k@,
            MultiSigner::Ecdsa(k) => k@,
        }
    }

    /// The discriminant that the serialized form carries for the active variant.
    pub open spec fn discriminant(&self) -> u8 {
        match self {
            MultiSigner::Ed25519(_) => 0u8,
            MultiSigner::Sr25519(_) => 1u8,
            MultiSigner::Ecdsa(_) => 2u8,
        }
    }

    /// The canonical account: the direct schemes' 32-byte keys stand for
    /// themselves; the recovery-based scheme's compressed key maps through
    /// the provider's one-way hash.
    pub open spec fn spec_into_account(&self) -> Seq<u8> {
        match self {
            MultiSigner::Ed25519(k) => k@,
            MultiSigner::Sr25519(k) => k@,
            MultiSigner::Ecdsa(k) => blake2_256_of(k@),
        }
    }

    /// The raw public-key bytes of the active variant, as they are.
    pub fn as_raw(&self) -> (r: &Vec<u8>)
        ensures
            r@ == self.payload(),
    {
        match self {
            MultiSigner::Ed25519(k) => &k.bytes,
            MultiSigner::Sr25519(k) => &k.bytes,
            MultiSigner::Ecdsa(k) => &k.bytes,
        }
    }

    /// Converts the identity to its canonical 32-byte account identifier.
    /// Total and deterministic: no failure path.
    pub fn into_account(self) -> (r: AccountId32)
        requires
            self.wf(),
        ensures
            r@ == self.spec_into_account(),
            r.wf(),
    {
        match self {
            MultiSigner::Ed25519(k) => AccountId32::from_raw(k.bytes),
            MultiSigner::Sr25519(k) => AccountId32::from_raw(k.bytes),
            MultiSigner::Ecdsa(k) => AccountId32::from_raw(blake2_256(k.bytes.as_slice())),
        }
    }

    /// Reinterprets an arbitrary 32-byte value as an identity, with no
    /// key-validity check. Any scheme would do here; the first one is used.
    pub fn unchecked_from(h: Vec<u8>) -> (r: MultiSigner)
        requires
            h@.len() == 32,
        ensures
            r is Ed25519,
            r.payload() == h@,
            r.wf(),
    {
        MultiSigner::Ed25519(Ed25519Public::from_raw(h))
    }

    pub open spec fn spec_try_into_ed25519(self) -> Result<Ed25519Public, WrongVariant> {
        match self {
            MultiSigner::Ed25519(k) => Ok(k),
            _ => Err(WrongVariant),
        }
    }

    /// The ed25519 public key held by this union, or `WrongVariant` when
    /// another scheme is active.
    pub fn try_into_ed25519(self) -> (r: Result<Ed25519Public, WrongVariant>)
        ensures
            r == self.spec_try_into_ed25519(),
    {
        match self {
            MultiSigner::Ed25519(k) => Ok(k),
            _ => Err(WrongVariant),
        }
    }

    pub open spec fn spec_try_into_sr25519(self) -> Result<Sr25519Public, WrongVariant> {
        match self {
            MultiSigner::Sr25519(k) => Ok(k),
            _ => Err(WrongVariant),
        }
    }

    /// The sr25519 public key held by this union, or `WrongVariant` when
    /// another scheme is active.
    pub fn try_into_sr25519(self) -> (r: Result<Sr25519Public, WrongVariant>)
        ensures
            r == self.spec_try_into_sr25519(),
    {
        match self {
            MultiSigner::Sr25519(k) => Ok(k),
            _ => Err(WrongVariant),
        }
    }

    pub open spec fn spec_try_into_ecdsa(self) -> Result<EcdsaPublic, WrongVariant> {
        match self {
            MultiSigner::Ecdsa(k) => Ok(k),
            _ => Err(WrongVariant),
        }
    }

    /// The ECDSA public key held by this union, or `WrongVariant` when
    /// another scheme is active.
    pub fn try_into_ecdsa(self) -> (r: Result<EcdsaPublic, WrongVariant>)
        ensures
            r == self.spec_try_into_ecdsa(),
    {
        match self {
            MultiSigner::Ecdsa(k) => Ok(k),
            _ => Err(WrongVariant),
        }
    }
}

impl From<Ed25519Public> for MultiSigner {
    fn from(k: Ed25519Public) -> (r: MultiSigner) {
        MultiSigner::Ed25519(k)
    }
}

impl vstd::std_specs::convert::FromSpecImpl<Ed25519Public> for MultiSigner {
    open spec fn obeys_from_spec() -> bool {
        true
    }

    open spec fn from_spec(k: Ed25519Public) -> MultiSigner {
        MultiSigner::Ed25519(k)
    }
}

impl From<Sr25519Public> for MultiSigner {
    fn from(k: Sr25519Public) -> (r: MultiSigner) {
        MultiSigner::Sr25519(k)
    }
}

impl vstd::std_specs::convert::FromSpecImpl<Sr25519Public> for MultiSigner {
    open spec fn obeys_from_spec() -> bool {
        true
    }

    open spec fn from_spec(k: Sr25519Public) -> MultiSigner {
        MultiSigner::Sr25519(k)
    }
}

impl From<EcdsaPublic> for MultiSigner {
    fn from(k: EcdsaPublic) -> (r: MultiSigner) {
        MultiSigner::Ecdsa(k)
    }
}

impl vstd::std_specs::convert::FromSpecImpl<EcdsaPublic> for MultiSigner {
    open spec fn obeys_from_spec() -> bool {
        true
    }

    open spec fn from_spec(k: EcdsaPublic) -> MultiSigner {
        MultiSigner::Ecdsa(k)
    }
}

impl Default for MultiSigner {
    /// The canonical placeholder: the first variant with a zero-filled key.
    /// It is cryptographically meaningless and exists only to satisfy
    /// generic code that demands a default value.
    fn default() -> (r: MultiSigner)
        ensures
            r is Ed25519,
            r.payload() == zero_seq(32),
            r.wf(),
    {
        MultiSigner::Ed25519(Ed25519Public::from_raw(zero_bytes(32)))
    }
}

/// Law: wrapping a scheme-specific public key and extracting that same
/// scheme's key returns it unchanged; extracting any other scheme's key
/// fails with `WrongVariant`.
pub proof fn lemma_signer_extraction_consistency(
    x: Ed25519Public,
    y: Sr25519Public,
    z: EcdsaPublic,
)
    ensures
        MultiSigner::Ed25519(x).spec_try_into_ed25519() == Ok::<_, WrongVariant>(x),
        MultiSigner::Sr25519(y).spec_try_into_sr25519() == Ok::<_, WrongVariant>(y),
        MultiSigner::Ecdsa(z).spec_try_into_ecdsa() == Ok::<_, WrongVariant>(z),
        MultiSigner::Ed25519(x).spec_try_into_sr25519() == Err::<Sr25519Public, _>(WrongVariant),
        MultiSigner::Ed25519(x).spec_try_into_ecdsa() == Err::<EcdsaPublic, _>(WrongVariant),
        MultiSigner::Sr25519(y).spec_try_into_ed25519() == Err::<Ed25519Public, _>(WrongVariant),
        MultiSigner::Sr25519(y).spec_try_into_ecdsa() == Err::<EcdsaPublic, _>(WrongVariant),
        MultiSigner::Ecdsa(z).spec_try_into_ed25519() == Err::<Ed25519Public, _>(WrongVariant),
        MultiSigner::Ecdsa(z).spec_try_into_sr25519() == Err::<Sr25519Public, _>(WrongVariant),
{
}

} // verus!
