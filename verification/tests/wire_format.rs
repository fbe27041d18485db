use custom_signature::any_signature::AnySignature;
use custom_signature::encoding::{
    decode_any_signature, decode_signature, decode_signer, encode_any_signature, encode_signature,
    encode_signer,
};
use custom_signature::error::DecodeError;
use custom_signature::keys::{EcdsaPublic, Ed25519Public, Sr25519Public};
use custom_signature::signature::MultiSignature;
use custom_signature::signer::MultiSigner;
use custom_signature::sigs::{EcdsaSignature, Ed25519Signature, Sr25519Signature};
use parity_scale_codec::Encode;

#[test]
fn signature_round_trips_all_variants() {
    let cases = vec![
        MultiSignature::Ed25519(Ed25519Signature::from_raw(vec![3u8; 64])),
        MultiSignature::Sr25519(Sr25519Signature::from_raw(vec![4u8; 64])),
        MultiSignature::Ecdsa(EcdsaSignature::from_raw(vec![5u8; 65])),
    ];
    for sig in cases {
        let encoded = encode_signature(&sig);
        let decoded = decode_signature(&encoded).unwrap();
        assert_eq!(decoded, sig);
    }
}

#[test]
fn signer_round_trips_all_variants() {
    let cases = vec![
        MultiSigner::Ed25519(Ed25519Public::from_raw(vec![6u8; 32])),
        MultiSigner::Sr25519(Sr25519Public::from_raw(vec![7u8; 32])),
        MultiSigner::Ecdsa(EcdsaPublic::from_raw(vec![8u8; 33])),
    ];
    for signer in cases {
        let encoded = encode_signer(&signer);
        let decoded = decode_signer(&encoded).unwrap();
        assert_eq!(decoded, signer);
    }
}

#[test]
fn any_signature_round_trips() {
    let sig = AnySignature::from_raw((0u8..64).collect());
    let encoded = encode_any_signature(&sig);
    let decoded = decode_any_signature(&encoded).unwrap();
    assert_eq!(decoded, sig);
}

#[test]
fn signature_encoding_layout() {
    let sig = MultiSignature::Ecdsa(EcdsaSignature::from_raw(vec![9u8; 65]));
    let encoded = encode_signature(&sig);
    assert_eq!(encoded.len(), 66);
    assert_eq!(encoded[0], 2);
    assert_eq!(&encoded[1..], &[9u8; 65][..]);
}

#[test]
fn signature_encoding_matches_scale() {
    let raw = [13u8; 64];
    let ours = encode_signature(&MultiSignature::Ed25519(Ed25519Signature::from_raw(
        raw.to_vec(),
    )));
    let upstream =
        sp_runtime::MultiSignature::Ed25519(sp_core::ed25519::Signature::from_raw(raw)).encode();
    assert_eq!(ours, upstream);

    let raw = [14u8; 65];
    let ours = encode_signature(&MultiSignature::Ecdsa(EcdsaSignature::from_raw(raw.to_vec())));
    let upstream =
        sp_runtime::MultiSignature::Ecdsa(sp_core::ecdsa::Signature::from_raw(raw)).encode();
    assert_eq!(ours, upstream);
}

#[test]
fn signer_encoding_matches_scale() {
    let raw = [15u8; 32];
    let ours = encode_signer(&MultiSigner::Sr25519(Sr25519Public::from_raw(raw.to_vec())));
    let upstream =
        sp_runtime::MultiSigner::Sr25519(sp_core::sr25519::Public::from_raw(raw)).encode();
    assert_eq!(ours, upstream);

    let raw = [16u8; 33];
    let ours = encode_signer(&MultiSigner::Ecdsa(EcdsaPublic::from_raw(raw.to_vec())));
    let upstream = sp_runtime::MultiSigner::Ecdsa(sp_core::ecdsa::Public::from_raw(raw)).encode();
    assert_eq!(ours, upstream);
}

#[test]
fn decode_rejects_empty_input() {
    assert_eq!(
        decode_signature(&Vec::new()),
        Err(DecodeError::UnknownDiscriminant)
    );
    assert_eq!(
        decode_signer(&Vec::new()),
        Err(DecodeError::UnknownDiscriminant)
    );
}

#[test]
fn decode_rejects_unknown_discriminant() {
    let mut bytes = vec![3u8];
    bytes.extend(vec![0u8; 64]);
    assert_eq!(
        decode_signature(&bytes),
        Err(DecodeError::UnknownDiscriminant)
    );
    let mut bytes = vec![255u8];
    bytes.extend(vec![0u8; 32]);
    assert_eq!(decode_signer(&bytes), Err(DecodeError::UnknownDiscriminant));
}

#[test]
fn decode_rejects_wrong_length() {
    // An ed25519 signature payload must be 64 bytes, not 63 or 65.
    let mut bytes = vec![0u8];
    bytes.extend(vec![0u8; 63]);
    assert_eq!(decode_signature(&bytes), Err(DecodeError::WrongLength));
    let mut bytes = vec![0u8];
    bytes.extend(vec![0u8; 65]);
    assert_eq!(decode_signature(&bytes), Err(DecodeError::WrongLength));

    // An ECDSA signature payload must be 65 bytes.
    let mut bytes = vec![2u8];
    bytes.extend(vec![0u8; 64]);
    assert_eq!(decode_signature(&bytes), Err(DecodeError::WrongLength));

    // An ECDSA public key payload must be 33 bytes.
    let mut bytes = vec![2u8];
    bytes.extend(vec![0u8; 32]);
    assert_eq!(decode_signer(&bytes), Err(DecodeError::WrongLength));

    // A legacy combined signature is exactly 64 bytes.
    assert_eq!(
        decode_any_signature(&vec![0u8; 63]),
        Err(DecodeError::WrongLength)
    );
}
