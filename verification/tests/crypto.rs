use wispers_connect::crypto::{
    generate_nonce, verify_signature_spki, PairingCode, PairingCodeError, PairingSecret,
    PairingSecretError, SigningKeyPair, X25519KeyPair,
};

#[test]
fn test_base36_roundtrip() {
    let secret = PairingSecret::generate();
    let encoded = secret.to_base36();
    assert_eq!(encoded.len(), 10);
    let decoded = PairingSecret::from_base36(&encoded).unwrap();
    assert_eq!(secret.as_bytes(), decoded.as_bytes());
}

#[test]
fn test_pairing_code_roundtrip() {
    let code = PairingCode::new(42, PairingSecret::generate());
    let formatted = code.format();
    let parsed = PairingCode::parse(&formatted).unwrap();
    assert_eq!(code.node_number, parsed.node_number);
    assert_eq!(code.secret.as_bytes(), parsed.secret.as_bytes());
}

#[test]
fn test_mac_verification() {
    let secret = PairingSecret::generate();
    let payload = b"test payload";
    let mac = secret.compute_mac(payload);
    assert!(secret.verify_mac(payload, &mac));
    assert!(!secret.verify_mac(b"different payload", &mac));
}

#[test]
fn test_signing_key_derivation() {
    let root_key = [42u8; 32];
    let kp1 = SigningKeyPair::derive_from_root_key(&root_key);
    let kp2 = SigningKeyPair::derive_from_root_key(&root_key);
    assert_eq!(kp1.public_key_bytes(), kp2.public_key_bytes());
}

#[test]
fn test_signature_roundtrip() {
    let root_key = [42u8; 32];
    let kp = SigningKeyPair::derive_from_root_key(&root_key);
    let message = b"test message";
    let signature = kp.sign(message);
    let spki = kp.public_key_spki();
    assert!(verify_signature_spki(&spki, message, &signature));
    assert!(!verify_signature_spki(&spki, b"wrong message", &signature));
}

#[test]
fn base36_of_known_secrets() {
    let zero = PairingSecret::from_base36("0000000000").unwrap();
    assert_eq!(zero.as_bytes(), &[0u8; 7]);
    assert_eq!(zero.to_base36(), "0000000000");
    let one = PairingSecret::from_base36("000000000z").unwrap();
    assert_eq!(one.as_bytes(), &[0, 0, 0, 0, 0, 0, 35]);
    assert_eq!(one.to_base36(), "000000000z");
    // 36 = 0x24
    let thirty_six = PairingSecret::from_base36("0000000010").unwrap();
    assert_eq!(thirty_six.as_bytes(), &[0, 0, 0, 0, 0, 0, 0x24]);
    // the largest ten-digit value, 36^10 - 1 = 0x0CFD41B9_0FFFFF
    let max = PairingSecret::from_base36("zzzzzzzzzz").unwrap();
    assert_eq!(max.as_bytes(), &[0x0c, 0xfd, 0x41, 0xb9, 0x0f, 0xff, 0xff]);
    assert_eq!(max.to_base36(), "zzzzzzzzzz");
}

#[test]
fn base36_accepts_what_from_str_radix_accepts() {
    // upper case digits, a leading '+', and '_' separators
    let upper = PairingSecret::from_base36("000000000Z").unwrap();
    assert_eq!(upper.as_bytes(), &[0, 0, 0, 0, 0, 0, 35]);
    let plus = PairingSecret::from_base36("+00000000z").unwrap();
    assert_eq!(plus.as_bytes(), &[0, 0, 0, 0, 0, 0, 35]);
    let underscore = PairingSecret::from_base36("0000_0001z").unwrap();
    assert_eq!(underscore.as_bytes(), &[0, 0, 0, 0, 0, 0, 71]);
}

#[test]
fn base36_errors() {
    assert!(matches!(PairingSecret::from_base36("abc"), Err(PairingSecretError::InvalidLength)));
    assert!(matches!(
        PairingSecret::from_base36("00000000000"),
        Err(PairingSecretError::InvalidLength)
    ));
    assert!(matches!(
        PairingSecret::from_base36("00000000-0"),
        Err(PairingSecretError::InvalidCharacter)
    ));
    assert!(matches!(
        PairingSecret::from_base36("_000000000"),
        Err(PairingSecretError::InvalidCharacter)
    ));
    assert!(matches!(
        PairingSecret::from_base36("++0000000z"),
        Err(PairingSecretError::InvalidCharacter)
    ));
    // ten bytes but five characters
    assert!(matches!(
        PairingSecret::from_base36("ééééé"),
        Err(PairingSecretError::InvalidCharacter)
    ));
}

#[test]
fn pairing_code_format_and_errors() {
    let secret = PairingSecret::from_base36("000000000z").unwrap();
    let code = PairingCode::new(7, secret);
    assert_eq!(code.format(), "7-000000000z");
    let parsed = PairingCode::parse("+12-000000000z").unwrap();
    assert_eq!(parsed.node_number, 12);
    assert!(matches!(PairingCode::parse("12000000000z"), Err(PairingCodeError::InvalidFormat)));
    assert!(matches!(PairingCode::parse("1-2-3"), Err(PairingCodeError::InvalidFormat)));
    assert!(matches!(
        PairingCode::parse("x-000000000z"),
        Err(PairingCodeError::InvalidNodeNumber)
    ));
    assert!(matches!(
        PairingCode::parse("99999999999-000000000z"),
        Err(PairingCodeError::InvalidNodeNumber)
    ));
    assert!(matches!(
        PairingCode::parse("5-short"),
        Err(PairingCodeError::InvalidSecret(PairingSecretError::InvalidLength))
    ));
    // a negative node number formats, but does not parse back
    let negative = PairingCode::new(-3, PairingSecret::from_base36("000000000z").unwrap());
    assert_eq!(negative.format(), "-3-000000000z");
    assert!(matches!(PairingCode::parse(&negative.format()), Err(PairingCodeError::InvalidFormat)));
}

#[test]
fn mac_is_sixteen_bytes_and_keyed() {
    let a = PairingSecret::from_base36("0000000001").unwrap();
    let b = PairingSecret::from_base36("0000000002").unwrap();
    let mac_a = a.compute_mac(b"payload");
    assert_eq!(mac_a.len(), 16);
    assert_ne!(mac_a, b.compute_mac(b"payload"));
    assert!(!b.verify_mac(b"payload", &mac_a));
    assert!(!a.verify_mac(b"payload", &mac_a[..15]));
}

#[test]
fn nonce_is_sixteen_random_bytes() {
    let a = generate_nonce();
    let b = generate_nonce();
    assert_eq!(a.len(), 16);
    assert_ne!(a, b);
}

#[test]
fn keys_differ_by_purpose_and_root() {
    let root = [7u8; 32];
    let signing = SigningKeyPair::derive_from_root_key(&root);
    let other = SigningKeyPair::derive_from_root_key(&[8u8; 32]);
    assert_ne!(signing.public_key_bytes(), other.public_key_bytes());
    assert_ne!(signing.public_key_bytes(), root);
    let x = X25519KeyPair::derive_from_root_key(&root);
    assert_ne!(x.public_key(), signing.public_key_bytes());
    // the SPKI document ends with the raw public key
    let spki = signing.public_key_spki();
    assert_eq!(&spki[spki.len() - 32..], &signing.public_key_bytes());
}

#[test]
fn diffie_hellman_agrees() {
    let a = X25519KeyPair::derive_from_root_key(&[1u8; 32]);
    let b = X25519KeyPair::derive_from_root_key(&[2u8; 32]);
    let ab = a.diffie_hellman(&b.public_key());
    let ba = b.diffie_hellman(&a.public_key());
    assert_eq!(ab, ba);
    assert_ne!(ab, b.public_key());
}

#[test]
fn spki_verification_refuses_bad_keys_and_signatures() {
    let kp = SigningKeyPair::derive_from_root_key(&[3u8; 32]);
    let sig = kp.sign(b"m");
    assert_eq!(sig.len(), 64);
    assert!(!verify_signature_spki(b"not a key", b"m", &sig));
    assert!(!verify_signature_spki(&kp.public_key_spki(), b"m", &sig[..63]));
}

#[test]
fn base36_text_roundtrip() {
    for text in ["0000000000", "k3j9z0a1bq", "zzzzzzzzzz", "0000000001"] {
        let secret = PairingSecret::from_base36(text).unwrap();
        assert_eq!(secret.to_base36(), text);
    }
}
