use vstd::prelude::*;

verus! {

/// An ed25519 signature: 64 raw bytes.
#[derive(Clone, PartialEq, Eq, Debug)]
pub struct Ed25519Signature {
    pub bytes: Vec<u8>,
}

impl View for Ed25519Signature {
    type V = Seq<u8>;

    open spec fn view(&self) -> Seq<u8> {
        self.bytes@
    }
}

impl Ed25519Signature {
    pub open spec fn wf(&self) -> bool {
        self@.len() == 64
    }

    pub fn from_raw(bytes: Vec<u8>) -> (r: Ed25519Signature)
        requires
            bytes@.len() == 64,
        ensures
            r@ == bytes@,
            r.wf(),
    {
        Ed25519Signature { bytes }
    }

    pub fn as_raw(&self) -> (r: &Vec<u8>)
        ensures
            r@ == self@,
    {
        &self.bytes
    }
}

/// An sr25519 signature: 64 raw bytes.
#[derive(Clone, PartialEq, Eq, Debug)]
pub struct Sr25519Signature {
    pub bytes: Vec<u8>,
}

impl View for Sr25519Signature {
    type V = Seq<u8>;

    open spec fn view(&self) -> Seq<u8> {
        self.bytes@
    }
}

impl Sr25519Signature {
    pub open spec fn wf(&self) -> bool {
        self@.len() == 64
    }

    pub fn from_raw(bytes: Vec<u8>) -> (r: Sr25519Signature)
        requires
            bytes@.len() == 64,
        ensures
            r@ == bytes@,
            r.wf(),
    {
        Sr25519Signature { bytes }
    }

    pub fn as_raw(&self) -> (r: &Vec<u8>)
        ensures
            r@ == self@,
    {
        &self.bytes
    }
}

/// An ECDSA/secp256k1 signature: 65 raw bytes (r, s and the recovery id).
#[derive(Clone, PartialEq, Eq, Debug)]
pub struct EcdsaSignature {
    pub bytes: Vec<u8>,
}

impl View for EcdsaSignature {
    type V = Seq<u8>;

    open spec fn view(&self) -> Seq<u8> {
        self.bytes@
    }
}

impl EcdsaSignature {
    pub open spec fn wf(&self) -> bool {
        self@.len() == 65
    }

    pub fn from_raw(bytes: Vec<u8>) -> (r: EcdsaSignature)
        requires
            bytes@.len() == 65,
        ensures
            r@ == bytes@,
            r.wf(),
    {
        EcdsaSignature { bytes }
    }

    pub fn as_raw(&self) -> (r: &Vec<u8>)
        ensures
            r@ == self@,
    {
        &self.bytes
    }
}

} // verus!
