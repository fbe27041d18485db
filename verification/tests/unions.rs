use custom_signature::any_signature::AnySignature;
use custom_signature::error::WrongVariant;
use custom_signature::keys::{EcdsaPublic, Ed25519Public, Sr25519Public};
use custom_signature::signature::MultiSignature;
use custom_signature::signer::MultiSigner;
use custom_signature::sigs::{EcdsaSignature, Ed25519Signature, Sr25519Signature};
use sp_core::Pair;

#[test]
fn signature_extraction_returns_original() {
    let ed = Ed25519Signature::from_raw(vec![1u8; 64]);
    let wrapped: MultiSignature = ed.clone().into();
    assert_eq!(wrapped.try_into_ed25519(), Ok(ed));

    let sr = Sr25519Signature::from_raw(vec![2u8; 64]);
    let wrapped: MultiSignature = sr.clone().into();
    assert_eq!(wrapped.try_into_sr25519(), Ok(sr));

    let ec = EcdsaSignature::from_raw(vec![3u8; 65]);
    let wrapped: MultiSignature = ec.clone().into();
    assert_eq!(wrapped.try_into_ecdsa(), Ok(ec));
}

#[test]
fn signature_extraction_wrong_scheme_fails() {
    let wrapped = MultiSignature::Ed25519(Ed25519Signature::from_raw(vec![1u8; 64]));
    assert_eq!(wrapped.clone().try_into_sr25519(), Err(WrongVariant));
    assert_eq!(wrapped.try_into_ecdsa(), Err(WrongVariant));

    let wrapped = MultiSignature::Ecdsa(EcdsaSignature::from_raw(vec![3u8; 65]));
    assert_eq!(wrapped.try_into_ed25519(), Err(WrongVariant));
}

#[test]
fn signer_extraction_returns_original() {
    let ed = Ed25519Public::from_raw(vec![4u8; 32]);
    let wrapped: MultiSigner = ed.clone().into();
    assert_eq!(wrapped.try_into_ed25519(), Ok(ed));

    let sr = Sr25519Public::from_raw(vec![5u8; 32]);
    let wrapped: MultiSigner = sr.clone().into();
    assert_eq!(wrapped.try_into_sr25519(), Ok(sr));

    let ec = EcdsaPublic::from_raw(vec![6u8; 33]);
    let wrapped: MultiSigner = ec.clone().into();
    assert_eq!(wrapped.try_into_ecdsa(), Ok(ec));
}

#[test]
fn signer_extraction_wrong_scheme_fails() {
    let wrapped = MultiSigner::Sr25519(Sr25519Public::from_raw(vec![5u8; 32]));
    assert_eq!(wrapped.clone().try_into_ed25519(), Err(WrongVariant));
    assert_eq!(wrapped.try_into_ecdsa(), Err(WrongVariant));
}

#[test]
fn defaults_are_zero_filled_first_variants() {
    assert_eq!(
        MultiSignature::default(),
        MultiSignature::Ed25519(Ed25519Signature::from_raw(vec![0u8; 64]))
    );
    assert_eq!(
        MultiSigner::default(),
        MultiSigner::Ed25519(Ed25519Public::from_raw(vec![0u8; 32]))
    );
    assert_eq!(AnySignature::default(), AnySignature::from_raw(vec![0u8; 64]));
}

#[test]
fn unchecked_from_reinterprets_raw_bytes() {
    let raw: Vec<u8> = (100u8..132).collect();
    let signer = MultiSigner::unchecked_from(raw.clone());
    assert_eq!(signer, MultiSigner::Ed25519(Ed25519Public::from_raw(raw)));
}

#[test]
fn as_raw_exposes_payload_with_scheme_specific_length() {
    let signer = MultiSigner::Ed25519(Ed25519Public::from_raw(vec![1u8; 32]));
    assert_eq!(signer.as_raw().len(), 32);
    let signer = MultiSigner::Sr25519(Sr25519Public::from_raw(vec![2u8; 32]));
    assert_eq!(signer.as_raw(), &vec![2u8; 32]);
    let signer = MultiSigner::Ecdsa(EcdsaPublic::from_raw(vec![3u8; 33]));
    assert_eq!(signer.as_raw().len(), 33);
}

#[test]
fn signer_ordering_is_variant_then_payload() {
    let a = MultiSigner::Ed25519(Ed25519Public::from_raw(vec![9u8; 32]));
    let b = MultiSigner::Sr25519(Sr25519Public::from_raw(vec![0u8; 32]));
    let c = MultiSigner::Sr25519(Sr25519Public::from_raw(vec![1u8; 32]));
    assert!(a < b);
    assert!(b < c);
}

#[test]
fn any_signature_verifies_sr25519_interpretation() {
    let pair = sp_core::sr25519::Pair::from_seed(&[21u8; 32]);
    let msg = b"legacy path, first interpretation";
    let sig = pair.sign(msg);
    let any: AnySignature = Sr25519Signature::from_raw(sig.0.to_vec()).into();
    let signer = Sr25519Public::from_raw(pair.public().0.to_vec());
    assert!(any.verify(msg, &signer));
}

#[test]
fn any_signature_falls_back_to_ed25519_interpretation() {
    let pair = sp_core::ed25519::Pair::from_seed(&[22u8; 32]);
    let msg = b"legacy path, second interpretation";
    let sig = pair.sign(msg);
    let any: AnySignature = Ed25519Signature::from_raw(sig.0.to_vec()).into();
    // The fixed sr25519-typed identity carries the ed25519 key's bytes; the
    // sr25519 check fails first, then the ed25519 reinterpretation succeeds.
    let signer = Sr25519Public::from_raw(pair.public().0.to_vec());
    assert!(any.verify(msg, &signer));
}

#[test]
fn any_signature_invalid_under_both_is_false() {
    let pair = sp_core::sr25519::Pair::from_seed(&[23u8; 32]);
    let any = AnySignature::from_raw((0u8..64).collect());
    let signer = Sr25519Public::from_raw(pair.public().0.to_vec());
    assert!(!any.verify(b"no interpretation fits", &signer));
}

#[test]
fn any_signature_keeps_raw_bytes_of_either_source() {
    let sr = Sr25519Signature::from_raw(vec![31u8; 64]);
    let any: AnySignature = sr.into();
    assert_eq!(any.as_raw(), &vec![31u8; 64]);

    let ed = Ed25519Signature::from_raw(vec![32u8; 64]);
    let any: AnySignature = ed.into();
    assert_eq!(any.as_raw(), &vec![32u8; 64]);
}

#[test]
fn render_names_scheme_and_hex_key() {
    let signer = MultiSigner::Ed25519(Ed25519Public::from_raw(vec![0xabu8; 32]));
    let expected = format!("ed25519: {}", "ab".repeat(32));
    assert_eq!(signer.render(), expected);

    let mut key = vec![0x01u8, 0x2f];
    key.extend(vec![0xffu8; 31]);
    let signer = MultiSigner::Ecdsa(EcdsaPublic::from_raw(key));
    let expected = format!("ecdsa: 012f{}", "ff".repeat(31));
    assert_eq!(signer.render(), expected);
}

#[test]
fn hex_string_renders_each_byte_as_two_digits() {
    let bytes = vec![0u8, 9, 10, 15, 16, 0x7b, 0xff];
    assert_eq!(custom_signature::text::hex_string(&bytes), "00090a0f107bff");
}
