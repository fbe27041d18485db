use vstd::prelude::*;

verus! {

/// An ed25519 public key: 32 raw bytes.
#[derive(Clone, PartialEq, Eq, PartialOrd, Ord, Debug)]
pub struct Ed25519Public {
    pub bytes: Vec<u8>,
}

impl View for Ed25519Public {
    type V = Seq<u8>;

    open spec fn view(&self) -> Seq<u8> {
        self.bytes@
    }
}

impl Ed25519Public {
    pub open spec fn wf(&self) -> bool {
        self@.len() == 32
    }

    pub fn from_raw(bytes: Vec<u8>) -> (r: Ed25519Public)
        requires
            bytes@.len() == 32,
        ensures
            r@ == bytes@,
            r.wf(),
    {
        Ed25519Public { bytes }
    }

    pub fn as_raw(&self) -> (r: &Vec<u8>)
        ensures
            r@ == self@,
    {
        &self.bytes
    }
}

/// An sr25519 public key: 32 raw bytes.
#[derive(Clone, PartialEq, Eq, PartialOrd, Ord, Debug)]
pub struct Sr25519Public {
    pub bytes: Vec<u8>,
}

impl View for Sr25519Public {
    type V = Seq<u8>;

    open spec fn view(&self) -> Seq<u8> {
        self.bytes@
    }
}

impl Sr25519Public {
    pub open spec fn wf(&self) -> bool {
        self@.len() == 32
    }

    pub fn from_raw(bytes: Vec<u8>) -> (r: Sr25519Public)
        requires
            bytes@.len() == 32,
        ensures
            r@ == bytes@,
            r.wf(),
    {
        Sr25519Public { bytes }
    }

    pub fn as_raw(&self) -> (r: &Vec<u8>)
        ensures
            r@ == self@,
    {
        &self.bytes
    }
}

/// An ECDSA/secp256k1 public key: 33 bytes, a compressed curve point.
#[derive(Clone, PartialEq, Eq, PartialOrd, Ord, Debug)]
pub struct EcdsaPublic {
    pub bytes: Vec<u8>,
}

impl View for EcdsaPublic {
    type V = Seq<u8>;

    open spec fn view(&self) -> Seq<u8> {
        self.bytes@
    }
}

impl EcdsaPublic {
    pub open spec fn wf(&self) -> bool {
        self@.len() == 33
    }

    pub fn from_raw(bytes: Vec<u8>) -> (r: EcdsaPublic)
        requires
            bytes@.len() == 33,
        ensures
            r@ == bytes@,
            r.wf(),
    {
        EcdsaPublic { bytes }
    }

    pub fn as_raw(&self) -> (r: &Vec<u8>)
        ensures
            r@ == self@,
    {
        &self.bytes
    }
}

} // verus!
