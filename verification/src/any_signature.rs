use vstd::prelude::*;
use crate::bytes::{zero_bytes, zero_seq};
use crate::keys::Sr25519Public;
use crate::provider::{ed25519_accepts, ed25519_verify, sr25519_accepts, sr25519_verify};
use crate::sigs::{Ed25519Signature, Sr25519Signature};

verus! {

/// A legacy combined signature: a fixed 64-byte buffer with no internal tag.
///
/// Verification reinterprets the same 64 bytes first as an sr25519 signature
/// and then, if that check fails, as an ed25519 signature, always against a
/// fixed sr25519 public-key type. This is a migration-era compatibility shim
/// for exactly two schemes, not a general multi-scheme container.
#[derive(Clone, PartialEq, Eq, Debug)]
pub struct AnySignature {
    pub bytes: Vec<u8>,
}

impl View for AnySignature {
    type V = Seq<u8>;

    open spec fn view(&self) -> Seq<u8> {
        self.bytes@
    }
}

impl AnySignature {
    /// The buffer is exactly 64 bytes.
    pub open spec fn wf(&self) -> bool {
        self@.len() == 64
    }

    pub fn from_raw(bytes: Vec<u8>) -> (r: AnySignature)
        requires
            bytes@.len() == 64,
        ensures
            r@ == bytes@,
            r.wf(),
    {
        AnySignature { bytes }
    }

    pub fn as_raw(&self) -> (r: &Vec<u8>)
        ensures
            r@ == self@,
    {
        &self.bytes
    }

    /// What verification returns: the sr25519 interpretation is tried first
    /// and takes precedence; the ed25519 interpretation is consulted only
    /// when the first check fails. A 64-byte buffer is structurally valid
    /// under both interpretations, so neither reinterpretation can fail
    /// before its scheme's check runs.
    pub open spec fn spec_verify(&self, msg: Seq<u8>, pk: Seq<u8>) -> bool {
        sr25519_accepts(self@, msg, pk) || ed25519_accepts(self@, msg, pk)
    }

    /// Verifies the 64 bytes over `msg` against a fixed sr25519 public key:
    /// first as an sr25519 signature and, only if that fails, as an ed25519
    /// signature with the key's bytes reinterpreted as an ed25519 key.
    pub fn verify(&self, msg: &[u8], signer: &Sr25519Public) -> (r: bool)
        requires
            self.wf(),
            signer.wf(),
        ensures
            r == self.spec_verify(msg@, signer@),
    {
        if sr25519_verify(&self.bytes, msg, &signer.bytes) {
            true
        } else {
            ed25519_verify(&self.bytes, msg, &signer.bytes)
        }
    }
}

impl From<Sr25519Signature> for AnySignature {
    fn from(s: Sr25519Signature) -> (r: AnySignature)
        ensures
            r@ == s@,
    {
        AnySignature { bytes: s.bytes }
    }
}

impl vstd::std_specs::convert::FromSpecImpl<Sr25519Signature> for AnySignature {
    open spec fn obeys_from_spec() -> bool {
        true
    }

    open spec fn from_spec(s: Sr25519Signature) -> AnySignature {
        AnySignature { bytes: s.bytes }
    }
}

impl From<Ed25519Signature> for AnySignature {
    fn from(s: Ed25519Signature) -> (r: AnySignature)
        ensures
            r@ == s@,
    {
        AnySignature { bytes: s.bytes }
    }
}

impl vstd::std_specs::convert::FromSpecImpl<Ed25519Signature> for AnySignature {
    open spec fn obeys_from_spec() -> bool {
        true
    }

    open spec fn from_spec(s: Ed25519Signature) -> AnySignature {
        AnySignature { bytes: s.bytes }
    }
}

impl Default for AnySignature {
    /// The canonical zero-filled placeholder, cryptographically meaningless.
    fn default() -> (r: AnySignature)
        ensures
            r@ == zero_seq(64),
            r.wf(),
    {
        AnySignature { bytes: zero_bytes(64) }
    }
}

/// Law: the combined check gives the sr25519 interpretation precedence. A
/// buffer the sr25519 scheme accepts verifies whatever the ed25519 scheme
/// says of it; one that both schemes reject does not verify; and the result
/// is never an error, only a boolean.
pub proof fn lemma_any_signature_precedence(s: AnySignature, msg: Seq<u8>, pk: Seq<u8>)
    ensures
        sr25519_accepts(s@, msg, pk) ==> s.spec_verify(msg, pk),
        !sr25519_accepts(s@, msg, pk) && !ed25519_accepts(s@, msg, pk) ==> !s.spec_verify(
            msg,
            pk,
        ),
        !sr25519_accepts(s@, msg, pk) ==> s.spec_verify(msg, pk) == ed25519_accepts(s@, msg, pk),
{
}

} // verus!
