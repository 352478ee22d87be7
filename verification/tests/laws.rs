use rand::RngCore;
use wispers_connect::crypto::{PairingCode, PairingSecret, SigningKeyPair};
use wispers_connect::proto::{AddendumKind, RevocationPayload, Roster};
use wispers_connect::roster::{
    build_activation_payload, compute_roster_hash, create_activation_roster,
    create_bootstrap_roster, create_revocation_roster, verify_roster, RosterVerificationError,
};

fn key() -> SigningKeyPair {
    let mut root = [0u8; 32];
    rand::thread_rng().fill_bytes(&mut root);
    SigningKeyPair::derive_from_root_key(&root)
}

/// The bootstrap roster of nodes 1 (endorser) and 2, both signatures in.
fn bootstrap(k1: &SigningKeyPair, k2: &SigningKeyPair) -> Roster {
    let payload = build_activation_payload(&Roster::default(), 1, 2, vec![1], vec![2]);
    let bytes = payload.encode_to_vec();
    let mut roster = create_bootstrap_roster(
        1,
        &k1.public_key_spki(),
        2,
        &k2.public_key_spki(),
        vec![1],
        vec![2],
        k2.sign(&bytes),
    );
    if let Some(AddendumKind::Activation(a)) = roster.addenda[0].kind.as_mut() {
        a.endorser_signature = k1.sign(&bytes);
    }
    roster
}

#[test]
fn bootstrap_gives_both_founders_keys() {
    let k1 = key();
    let k2 = key();
    let roster = bootstrap(&k1, &k2);
    for (n, k) in [(1, &k1), (2, &k2)] {
        let keys = verify_roster(&roster, n, &k.public_key_spki()).unwrap();
        assert_eq!(keys.len(), 2);
        assert_eq!(keys[&1], k1.public_key_bytes().to_vec());
        assert_eq!(keys[&2], k2.public_key_bytes().to_vec());
    }
}

#[test]
fn activation_adds_exactly_the_new_key() {
    let k1 = key();
    let k2 = key();
    let k3 = key();
    let base = bootstrap(&k1, &k2);
    let before = verify_roster(&base, 2, &k2.public_key_spki()).unwrap();
    let payload = build_activation_payload(&base, 1, 3, vec![7], vec![8]);
    let bytes = payload.encode_to_vec();
    let mut roster = create_activation_roster(&base, 1, 3, &k3.public_key_spki(), vec![7], vec![8], k3.sign(&bytes));
    // without the endorser's signature the roster does not verify
    assert!(matches!(
        verify_roster(&roster, 2, &k2.public_key_spki()),
        Err(RosterVerificationError::InvalidEndorserSignature(2))
    ));
    if let Some(AddendumKind::Activation(a)) = roster.addenda.last_mut().and_then(|a| a.kind.as_mut()) {
        a.endorser_signature = k1.sign(&bytes);
    }
    for (n, k) in [(1, &k1), (2, &k2), (3, &k3)] {
        let after = verify_roster(&roster, n, &k.public_key_spki()).unwrap();
        assert_eq!(after.len(), before.len() + 1);
        for (node, value) in &before {
            assert_eq!(&after[node], value);
        }
        assert_eq!(after[&3], k3.public_key_bytes().to_vec());
    }
}

#[test]
fn revocation_removes_exactly_the_revoked_key() {
    let k1 = key();
    let k2 = key();
    let base = bootstrap(&k1, &k2);
    let k3 = key();
    let payload = build_activation_payload(&base, 2, 3, vec![], vec![]);
    let bytes = payload.encode_to_vec();
    let mut grown = create_activation_roster(&base, 2, 3, &k3.public_key_spki(), vec![], vec![], k3.sign(&bytes));
    if let Some(AddendumKind::Activation(a)) = grown.addenda.last_mut().and_then(|a| a.kind.as_mut()) {
        a.endorser_signature = k2.sign(&bytes);
    }
    let before = verify_roster(&grown, 1, &k1.public_key_spki()).unwrap();
    let revocation = RevocationPayload {
        base_version: grown.version,
        base_version_hash: compute_roster_hash(&grown),
        new_version: grown.version + 1,
        revoked_node_number: 3,
        revoker_node_number: 1,
    };
    let roster = create_revocation_roster(&grown, 3, 1, k1.sign(&revocation.encode_to_vec()));
    for (n, k) in [(1, &k1), (2, &k2)] {
        let after = verify_roster(&roster, n, &k.public_key_spki()).unwrap();
        assert_eq!(after.len(), before.len() - 1);
        assert!(!after.contains_key(&3));
        assert_eq!(after[&1], before[&1]);
        assert_eq!(after[&2], before[&2]);
    }
    assert!(matches!(
        verify_roster(&roster, 3, &k3.public_key_spki()),
        Err(RosterVerificationError::VerifierRevoked(3))
    ));
}

#[test]
fn roster_hash_is_a_digest_of_the_encoding() {
    let k1 = key();
    let k2 = key();
    let roster = bootstrap(&k1, &k2);
    let hash = compute_roster_hash(&roster);
    assert_eq!(hash.len(), 32);
    assert_ne!(hash, roster.encode_to_vec());
    assert_ne!(hash, compute_roster_hash(&Roster::default()));
}

#[test]
fn secrets_and_codes_round_trip() {
    for _ in 0..20 {
        let secret = PairingSecret::generate();
        let back = PairingSecret::from_base36(&secret.to_base36()).unwrap();
        assert_eq!(back.as_bytes(), secret.as_bytes());
        let code = PairingCode::new(123456, secret);
        let parsed = PairingCode::parse(&code.format()).unwrap();
        assert_eq!(parsed.node_number, 123456);
        assert_eq!(parsed.secret.as_bytes(), code.secret.as_bytes());
        let mac = code.secret.compute_mac(b"p");
        assert!(parsed.secret.verify_mac(b"p", &mac));
    }
}
