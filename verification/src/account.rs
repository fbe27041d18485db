use vstd::prelude::*;

verus! {

/// A canonical 32-byte account identifier derived from a signer's public key.
#[derive(Clone, PartialEq, Eq, Debug)]
pub struct AccountId32 {
    pub bytes: Vec<u8>,
}

impl View for AccountId32 {
    type V = Seq<u8>;

    open spec fn view(&self) -> Seq<u8> {
        self.bytes@
    }
}

impl AccountId32 {
    /// An identifier is exactly 32 bytes.
    pub open spec fn wf(&self) -> bool {
        self@.len() == 32
    }

    /// Builds an identifier from exactly 32 raw bytes.
    ///
    /// No scheme-specific key-validity check is performed: this is the
    /// deliberately unchecked identity path.
    pub fn from_raw(bytes: Vec<u8>) -> (r: AccountId32)
        requires
            bytes@.len() == 32,
        ensures
            r@ == bytes@,
            r.wf(),
    {
        AccountId32 { bytes }
    }

    /// The identifier's raw 32 bytes.
    pub fn as_raw(&self) -> (r: &Vec<u8>)
        ensures
            r@ == self@,
    {
        &self.bytes
    }
}

} // verus!
