use vstd::prelude::*;
use vstd::slice::{slice_subrange, slice_to_vec};
use crate::any_signature::AnySignature;
use crate::bytes::append_bytes;
use crate::error::DecodeError;
use crate::keys::{EcdsaPublic, Ed25519Public, Sr25519Public};
use crate::signature::MultiSignature;
use crate::signer::MultiSigner;
use crate::sigs::{EcdsaSignature, Ed25519Signature, Sr25519Signature};

verus! {

// Each tagged union encodes as one discriminant byte followed by the fixed
// size payload of the indicated scheme; decoding rejects unknown
// discriminants and payloads of the wrong length for the indicated scheme.

/// The serialized form of a signature union: its discriminant byte followed
/// by the active variant's payload.
pub open spec fn spec_encode_signature(s: MultiSignature) -> Seq<u8> {
    seq![s.discriminant()] + s.payload()
}

/// Whether `b` is the encoding of some well-formed signature union: a known
/// discriminant, then exactly the payload length of that scheme.
pub open spec fn signature_encoding_valid(b: Seq<u8>) -> bool {
    &&& b.len() > 0
    &&& {
        ||| (b[0] == 0 && b.len() == 65)
        ||| (b[0] == 1 && b.len() == 65)
        ||| (b[0] == 2 && b.len() == 66)
    }
}

/// The discriminant and payload that a valid encoding carries.
pub open spec fn spec_decode_signature(b: Seq<u8>) -> Option<(u8, Seq<u8>)> {
    if signature_encoding_valid(b) {
        Some((b[0], b.subrange(1, b.len() as int)))
    } else {
        None
    }
}

/// Encodes a signature union: the discriminant byte, then the payload.
pub fn encode_signature(s: &MultiSignature) -> (r: Vec<u8>)
    ensures
        r@ == spec_encode_signature(*s),
{
    let mut out: Vec<u8> = Vec::new();
    match s {
        MultiSignature::Ed25519(x) => {
            out.push(0u8);
            append_bytes(&mut out, x.bytes.as_slice());
        },
        MultiSignature::Sr25519(x) => {
            out.push(1u8);
            append_bytes(&mut out, x.bytes.as_slice());
        },
        MultiSignature::Ecdsa(x) => {
            out.push(2u8);
            append_bytes(&mut out, x.bytes.as_slice());
        },
    }
    proof {
        assert(out@ =~= spec_encode_signature(*s));
    }
    out
}

/// Decodes a signature union, accepting exactly the valid encodings.
///
/// An empty input or an unknown discriminant is `UnknownDiscriminant`; a
/// known discriminant whose payload has the wrong length is `WrongLength`.
/// Nothing is ever silently defaulted.
pub fn decode_signature(bytes: &Vec<u8>) -> (r: Result<MultiSignature, DecodeError>)
    ensures
        r is Ok <==> signature_encoding_valid(bytes@),
        r matches Ok(s) ==> {
            &&& s.wf()
            &&& spec_encode_signature(s) == bytes@
            &&& spec_decode_signature(bytes@) == Some((s.discriminant(), s.payload()))
        },
        r matches Err(e) ==> {
            &&& (e is UnknownDiscriminant <==> (bytes@.len() == 0 || bytes@[0] > 2))
            &&& (e is WrongLength <==> bytes@.len() > 0 && bytes@[0] <= 2)
        },
{
    if bytes.len() == 0 {
        return Err(DecodeError::UnknownDiscriminant);
    }
    let tag = bytes[0];
    if tag > 2 {
        return Err(DecodeError::UnknownDiscriminant);
    }
    if tag == 0 {
        if bytes.len() != 65 {
            return Err(DecodeError::WrongLength);
        }
        let payload = slice_to_vec(slice_subrange(bytes.as_slice(), 1, 65));
        let s = MultiSignature::Ed25519(Ed25519Signature::from_raw(payload));
        proof {
            assert(spec_encode_signature(s) =~= bytes@);
        }
        Ok(s)
    } else if tag == 1 {
        if bytes.len() != 65 {
            return Err(DecodeError::WrongLength);
        }
        let payload = slice_to_vec(slice_subrange(bytes.as_slice(), 1, 65));
        let s = MultiSignature::Sr25519(Sr25519Signature::from_raw(payload));
        proof {
            assert(spec_encode_signature(s) =~= bytes@);
        }
        Ok(s)
    } else {
        if bytes.len() != 66 {
            return Err(DecodeError::WrongLength);
        }
        let payload = slice_to_vec(slice_subrange(bytes.as_slice(), 1, 66));
        let s = MultiSignature::Ecdsa(EcdsaSignature::from_raw(payload));
        proof {
            assert(spec_encode_signature(s) =~= bytes@);
        }
        Ok(s)
    }
}

/// Law: decoding inverts encoding for every well-formed signature union —
/// the encoding is valid, and decoding it returns exactly the original's
/// discriminant and payload.
pub proof fn lemma_signature_round_trip(s: MultiSignature)
    requires
        s.wf(),
    ensures
        signature_encoding_valid(spec_encode_signature(s)),
        spec_decode_signature(spec_encode_signature(s)) == Some((s.discriminant(), s.payload())),
{
    let b = spec_encode_signature(s);
    assert(b.subrange(1, b.len() as int) =~= s.payload());
}

/// Law: encoding is injective — two well-formed signature unions with the
/// same encoding hold the same discriminant and the same payload.
pub proof fn lemma_signature_encoding_injective(a: MultiSignature, b: MultiSignature)
    requires
        a.wf(),
        b.wf(),
        spec_encode_signature(a) == spec_encode_signature(b),
    ensures
        a.discriminant() == b.discriminant(),
        a.payload() == b.payload(),
{
    lemma_signature_round_trip(a);
    lemma_signature_round_trip(b);
}

/// The serialized form of a signer union: its discriminant byte followed by
/// the active variant's payload.
pub open spec fn spec_encode_signer(s: MultiSigner) -> Seq<u8> {
    seq![s.discriminant()] + s.payload()
}

/// Whether `b` is the encoding of some well-formed signer union.
pub open spec fn signer_encoding_valid(b: Seq<u8>) -> bool {
    &&& b.len() > 0
    &&& {
        ||| (b[0] == 0 && b.len() == 33)
        ||| (b[0] == 1 && b.len() == 33)
        ||| (b[0] == 2 && b.len() == 34)
    }
}

/// The discriminant and payload that a valid encoding carries.
pub open spec fn spec_decode_signer(b: Seq<u8>) -> Option<(u8, Seq<u8>)> {
    if signer_encoding_valid(b) {
        Some((b[0], b.subrange(1, b.len() as int)))
    } else {
        None
    }
}

/// Encodes a signer union: the discriminant byte, then the payload.
pub fn encode_signer(s: &MultiSigner) -> (r: Vec<u8>)
    ensures
        r@ == spec_encode_signer(*s),
{
    let mut out: Vec<u8> = Vec::new();
    match s {
        MultiSigner::Ed25519(k) => {
            out.push(0u8);
            append_bytes(&mut out, k.bytes.as_slice());
        },
        MultiSigner::Sr25519(k) => {
            out.push(1u8);
            append_bytes(&mut out, k.bytes.as_slice());
        },
        MultiSigner::Ecdsa(k) => {
            out.push(2u8);
            append_bytes(&mut out, k.bytes.as_slice());
        },
    }
    proof {
        assert(out@ =~= spec_encode_signer(*s));
    }
    out
}

/// Decodes a signer union, accepting exactly the valid encodings, with the
/// same error discipline as signature decoding.
pub fn decode_signer(bytes: &Vec<u8>) -> (r: Result<MultiSigner, DecodeError>)
    ensures
        r is Ok <==> signer_encoding_valid(bytes@),
        r matches Ok(s) ==> {
            &&& s.wf()
            &&& spec_encode_signer(s) == bytes@
            &&& spec_decode_signer(bytes@) == Some((s.discriminant(), s.payload()))
        },
        r matches Err(e) ==> {
            &&& (e is UnknownDiscriminant <==> (bytes@.len() == 0 || bytes@[0] > 2))
            &&& (e is WrongLength <==> bytes@.len() > 0 && bytes@[0] <= 2)
        },
{
    if bytes.len() == 0 {
        return Err(DecodeError::UnknownDiscriminant);
    }
    let tag = bytes[0];
    if tag > 2 {
        return Err(DecodeError::UnknownDiscriminant);
    }
    if tag == 0 {
        if bytes.len() != 33 {
            return Err(DecodeError::WrongLength);
        }
        let payload = slice_to_vec(slice_subrange(bytes.as_slice(), 1, 33));
        let s = MultiSigner::Ed25519(Ed25519Public::from_raw(payload));
        proof {
            assert(spec_encode_signer(s) =~= bytes@);
        }
        Ok(s)
    } else if tag == 1 {
        if bytes.len() != 33 {
            return Err(DecodeError::WrongLength);
        }
        let payload = slice_to_vec(slice_subrange(bytes.as_slice(), 1, 33));
        let s = MultiSigner::Sr25519(Sr25519Public::from_raw(payload));
        proof {
            assert(spec_encode_signer(s) =~= bytes@);
        }
        Ok(s)
    } else {
        if bytes.len() != 34 {
            return Err(DecodeError::WrongLength);
        }
        let payload = slice_to_vec(slice_subrange(bytes.as_slice(), 1, 34));
        let s = MultiSigner::Ecdsa(EcdsaPublic::from_raw(payload));
        proof {
            assert(spec_encode_signer(s) =~= bytes@);
        }
        Ok(s)
    }
}

/// Law: decoding inverts encoding for every well-formed signer union.
pub proof fn lemma_signer_round_trip(s: MultiSigner)
    requires
        s.wf(),
    ensures
        signer_encoding_valid(spec_encode_signer(s)),
        spec_decode_signer(spec_encode_signer(s)) == Some((s.discriminant(), s.payload())),
{
    let b = spec_encode_signer(s);
    assert(b.subrange(1, b.len() as int) =~= s.payload());
}

/// Law: encoding is injective — two well-formed signer unions with the same
/// encoding hold the same discriminant and the same payload.
pub proof fn lemma_signer_encoding_injective(a: MultiSigner, b: MultiSigner)
    requires
        a.wf(),
        b.wf(),
        spec_encode_signer(a) == spec_encode_signer(b),
    ensures
        a.discriminant() == b.discriminant(),
        a.payload() == b.payload(),
{
    lemma_signer_round_trip(a);
    lemma_signer_round_trip(b);
}

/// Encodes a legacy combined signature: its 64 bytes, as they are.
pub fn encode_any_signature(s: &AnySignature) -> (r: Vec<u8>)
    ensures
        r@ == s@,
{
    slice_to_vec(s.bytes.as_slice())
}

/// Decodes a legacy combined signature: exactly 64 bytes, as they are.
pub fn decode_any_signature(bytes: &Vec<u8>) -> (r: Result<AnySignature, DecodeError>)
    ensures
        r is Ok <==> bytes@.len() == 64,
        r matches Ok(s) ==> s@ == bytes@ && s.wf(),
        r matches Err(e) ==> e is WrongLength,
{
    if bytes.len() == 64 {
        Ok(AnySignature::from_raw(slice_to_vec(bytes.as_slice())))
    } else {
        Err(DecodeError::WrongLength)
    }
}

} // verus!
