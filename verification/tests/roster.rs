use rand::RngCore;
use wispers_connect::crypto::SigningKeyPair;
use wispers_connect::proto::{
    Activation, ActivationPayload, Addendum, AddendumKind, Revocation, RevocationPayload, Roster,
    RosterNode,
};
use wispers_connect::roster::{
    active_nodes, build_activation_payload, compute_roster_hash, create_activation_roster,
    create_bootstrap_roster, create_revocation_roster, verify_base_hash, verify_roster,
    RosterVerificationError,
};

/// A fresh signing key from a random root key.
fn generate_key() -> SigningKeyPair {
    let mut root = [0u8; 32];
    rand::thread_rng().fill_bytes(&mut root);
    SigningKeyPair::derive_from_root_key(&root)
}

fn spki(key: &SigningKeyPair) -> Vec<u8> {
    key.public_key_spki()
}

fn sign(key: &SigningKeyPair, message: &[u8]) -> Vec<u8> {
    key.sign(message)
}

fn node(node_number: i32, key: &SigningKeyPair) -> RosterNode {
    RosterNode { node_number, public_key_spki: spki(key), revoked: false }
}

/// A version 1 (bootstrap) roster with two founding nodes: node B is the
/// new node, endorsed by node A.
fn build_bootstrap_roster(
    key_a: &SigningKeyPair,
    node_a: i32,
    key_b: &SigningKeyPair,
    node_b: i32,
) -> Roster {
    let payload = ActivationPayload {
        base_version: 0,
        base_version_hash: vec![],
        new_version: 1,
        new_node_number: node_b,
        endorser_node_number: node_a,
        new_node_nonce: b"node_b_nonce".to_vec(),
        endorser_nonce: b"node_a_nonce".to_vec(),
    };
    let payload_bytes = payload.encode_to_vec();
    Roster {
        version: 1,
        nodes: vec![node(node_a, key_a), node(node_b, key_b)],
        addenda: vec![Addendum {
            kind: Some(AddendumKind::Activation(Activation {
                payload: Some(payload),
                new_node_signature: sign(key_b, &payload_bytes),
                endorser_signature: sign(key_a, &payload_bytes),
            })),
        }],
    }
}

/// Add a new node to the roster (activation).
fn add_node(
    roster: &mut Roster,
    new_key: &SigningKeyPair,
    new_node_number: i32,
    endorser_key: &SigningKeyPair,
    endorser_node_number: i32,
) {
    let base_hash = compute_roster_hash(roster);
    let new_version = roster.version + 1;
    let payload = ActivationPayload {
        base_version: roster.version,
        base_version_hash: base_hash,
        new_version,
        new_node_number,
        endorser_node_number,
        new_node_nonce: format!("nonce_{}", new_node_number).into_bytes(),
        endorser_nonce: format!("endorser_nonce_{}", new_version).into_bytes(),
    };
    let payload_bytes = payload.encode_to_vec();
    roster.version = new_version;
    roster.nodes.push(node(new_node_number, new_key));
    roster.addenda.push(Addendum {
        kind: Some(AddendumKind::Activation(Activation {
            payload: Some(payload),
            new_node_signature: sign(new_key, &payload_bytes),
            endorser_signature: sign(endorser_key, &payload_bytes),
        })),
    });
}

/// Revoke a node from the roster.
fn revoke_node(
    roster: &mut Roster,
    revoked_node_number: i32,
    revoker_key: &SigningKeyPair,
    revoker_node_number: i32,
) {
    let base_hash = compute_roster_hash(roster);
    let new_version = roster.version + 1;
    let payload = RevocationPayload {
        base_version: roster.version,
        base_version_hash: base_hash,
        new_version,
        revoked_node_number,
        revoker_node_number,
    };
    let payload_bytes = payload.encode_to_vec();
    roster.version = new_version;
    if let Some(n) = roster.nodes.iter_mut().find(|n| n.node_number == revoked_node_number) {
        n.revoked = true;
    }
    roster.addenda.push(Addendum {
        kind: Some(AddendumKind::Revocation(Revocation {
            payload: Some(payload),
            revoker_signature: sign(revoker_key, &payload_bytes),
        })),
    });
}

#[test]
fn test_invalid_version_zero() {
    let roster = Roster { version: 0, nodes: vec![], addenda: vec![] };
    let result = verify_roster(&roster, 1, &[]);
    assert!(matches!(result, Err(RosterVerificationError::InvalidVersion(0))));
}

#[test]
fn test_addenda_count_mismatch() {
    let roster = Roster { version: 2, nodes: vec![], addenda: vec![] };
    let result = verify_roster(&roster, 1, &[]);
    assert!(matches!(result, Err(RosterVerificationError::AddendaCountMismatch { .. })));
}

#[test]
fn test_duplicate_node_numbers() {
    let key = generate_key();
    let roster = Roster {
        version: 1,
        nodes: vec![node(1, &key), node(1, &key)],
        addenda: vec![Addendum { kind: None }],
    };
    let result = verify_roster(&roster, 1, &spki(&key));
    assert!(matches!(result, Err(RosterVerificationError::DuplicateNode(1))));
}

#[test]
fn test_verifier_not_in_roster() {
    let key_a = generate_key();
    let key_b = generate_key();
    let roster = build_bootstrap_roster(&key_a, 1, &key_b, 2);
    let other_key = generate_key();
    let result = verify_roster(&roster, 99, &spki(&other_key));
    assert!(matches!(result, Err(RosterVerificationError::VerifierNotInRoster(99))));
}

#[test]
fn test_verifier_key_mismatch() {
    let key_a = generate_key();
    let key_b = generate_key();
    let roster = build_bootstrap_roster(&key_a, 1, &key_b, 2);
    let wrong_key = generate_key();
    let result = verify_roster(&roster, 1, &spki(&wrong_key));
    assert!(matches!(result, Err(RosterVerificationError::VerifierKeyMismatch(1))));
}

#[test]
fn test_verifier_revoked() {
    let key1 = generate_key();
    let key2 = generate_key();
    let key3 = generate_key();
    let mut roster = build_bootstrap_roster(&key1, 1, &key2, 2);
    add_node(&mut roster, &key3, 3, &key1, 1);
    revoke_node(&mut roster, 1, &key3, 3);
    let result = verify_roster(&roster, 1, &spki(&key1));
    assert!(matches!(result, Err(RosterVerificationError::VerifierRevoked(1))));
}

#[test]
fn test_bootstrap_roster_verifies() {
    let key_a = generate_key();
    let key_b = generate_key();
    let roster = build_bootstrap_roster(&key_a, 1, &key_b, 2);
    let result = verify_roster(&roster, 1, &spki(&key_a));
    assert!(result.is_ok());
    let keys = result.unwrap();
    assert_eq!(keys.len(), 2);
    assert!(keys.contains_key(&1));
    assert!(keys.contains_key(&2));
    let result = verify_roster(&roster, 2, &spki(&key_b));
    assert!(result.is_ok());
}

#[test]
fn test_multi_node_roster_verifies() {
    let key1 = generate_key();
    let key2 = generate_key();
    let key3 = generate_key();
    let key4 = generate_key();
    let mut roster = build_bootstrap_roster(&key1, 1, &key2, 2);
    add_node(&mut roster, &key3, 3, &key2, 2);
    add_node(&mut roster, &key4, 4, &key1, 1);
    for (node_num, key) in [(1, &key1), (2, &key2), (3, &key3), (4, &key4)] {
        let result = verify_roster(&roster, node_num, &spki(key));
        assert!(result.is_ok(), "Node {} should verify successfully", node_num);
        let keys = result.unwrap();
        assert_eq!(keys.len(), 4);
    }
}

#[test]
fn test_verification_during_roster_growth() {
    let keys: Vec<_> = (0..5).map(|_| generate_key()).collect();
    let mut roster = build_bootstrap_roster(&keys[0], 0, &keys[1], 1);
    for j in 0..5 {
        let result = verify_roster(&roster, j as i32, &spki(&keys[j]));
        if j <= 1 {
            assert!(result.is_ok(), "Node {} should verify at version {}", j, roster.version);
        } else {
            assert!(result.is_err(), "Node {} should NOT verify at version {}", j, roster.version);
        }
    }
    for i in 2..5 {
        add_node(&mut roster, &keys[i], i as i32, &keys[i - 1], (i - 1) as i32);
        for j in 0..5 {
            let result = verify_roster(&roster, j as i32, &spki(&keys[j]));
            if j <= i {
                assert!(result.is_ok(), "Node {} should verify at version {}", j, roster.version);
            } else {
                assert!(
                    result.is_err(),
                    "Node {} should NOT verify at version {}",
                    j,
                    roster.version
                );
            }
        }
    }
}

#[test]
fn test_invalid_new_node_signature() {
    let key1 = generate_key();
    let key2 = generate_key();
    let key3 = generate_key();
    let mut roster = build_bootstrap_roster(&key1, 1, &key2, 2);
    add_node(&mut roster, &key3, 3, &key1, 1);
    if let Some(AddendumKind::Activation(ref mut act)) = roster.addenda[1].kind {
        act.new_node_signature = vec![0u8; 64];
    }
    let result = verify_roster(&roster, 1, &spki(&key1));
    assert!(matches!(result, Err(RosterVerificationError::InvalidNewNodeSignature(2))));
}

#[test]
fn test_invalid_endorser_signature() {
    let key1 = generate_key();
    let key2 = generate_key();
    let key3 = generate_key();
    let mut roster = build_bootstrap_roster(&key1, 1, &key2, 2);
    add_node(&mut roster, &key3, 3, &key1, 1);
    if let Some(AddendumKind::Activation(ref mut act)) = roster.addenda[1].kind {
        act.endorser_signature = vec![0u8; 64];
    }
    let result = verify_roster(&roster, 1, &spki(&key1));
    assert!(matches!(result, Err(RosterVerificationError::InvalidEndorserSignature(2))));
}

#[test]
fn test_flipped_signatures() {
    let key1 = generate_key();
    let key2 = generate_key();
    let key3 = generate_key();
    let key4 = generate_key();
    let mut roster = build_bootstrap_roster(&key1, 1, &key2, 2);
    add_node(&mut roster, &key3, 3, &key2, 2);
    add_node(&mut roster, &key4, 4, &key1, 1);
    if let Some(AddendumKind::Activation(ref mut act)) = roster.addenda[2].kind {
        std::mem::swap(&mut act.new_node_signature, &mut act.endorser_signature);
    }
    let result = verify_roster(&roster, 1, &spki(&key1));
    assert!(result.is_err());
}

#[test]
fn test_bad_base_hash() {
    let key1 = generate_key();
    let key2 = generate_key();
    let key3 = generate_key();
    let mut roster = build_bootstrap_roster(&key1, 1, &key2, 2);
    add_node(&mut roster, &key3, 3, &key1, 1);
    if let Some(AddendumKind::Activation(ref mut act)) = roster.addenda[1].kind {
        if let Some(ref mut payload) = act.payload {
            payload.base_version_hash = b"fake_hash".to_vec();
        }
    }
    let result = verify_roster(&roster, 1, &spki(&key1));
    assert!(result.is_err(), "Should fail with corrupted base hash, got: {:?}", result);
    let err = result.unwrap_err();
    assert!(
        matches!(err, RosterVerificationError::BaseHashMismatch(2))
            || matches!(err, RosterVerificationError::InvalidNewNodeSignature(2))
            || matches!(err, RosterVerificationError::InvalidEndorserSignature(2)),
        "Expected BaseHashMismatch or signature error, got: {:?}",
        err
    );
}

#[test]
fn test_self_endorsement_rejected() {
    let key1 = generate_key();
    let key2 = generate_key();
    let key3 = generate_key();
    let mut roster = build_bootstrap_roster(&key1, 1, &key2, 2);
    let base_hash = compute_roster_hash(&roster);
    let payload = ActivationPayload {
        base_version: roster.version,
        base_version_hash: base_hash,
        new_version: 2,
        new_node_number: 3,
        endorser_node_number: 3,
        new_node_nonce: b"nonce".to_vec(),
        endorser_nonce: b"endorser_nonce".to_vec(),
    };
    let payload_bytes = payload.encode_to_vec();
    roster.version = 2;
    roster.nodes.push(node(3, &key3));
    roster.addenda.push(Addendum {
        kind: Some(AddendumKind::Activation(Activation {
            payload: Some(payload),
            new_node_signature: sign(&key3, &payload_bytes),
            endorser_signature: sign(&key3, &payload_bytes),
        })),
    });
    let result = verify_roster(&roster, 1, &spki(&key1));
    assert!(matches!(result, Err(RosterVerificationError::NewNodeIsEndorser(3))));
}

#[test]
fn test_endorser_not_in_roster() {
    let key1 = generate_key();
    let key2 = generate_key();
    let key3 = generate_key();
    let mut roster = build_bootstrap_roster(&key1, 1, &key2, 2);
    let base_hash = compute_roster_hash(&roster);
    let payload = ActivationPayload {
        base_version: roster.version,
        base_version_hash: base_hash,
        new_version: 2,
        new_node_number: 3,
        endorser_node_number: 99,
        new_node_nonce: b"nonce".to_vec(),
        endorser_nonce: b"endorser_nonce".to_vec(),
    };
    let payload_bytes = payload.encode_to_vec();
    roster.version = 2;
    roster.nodes.push(node(3, &key3));
    roster.addenda.push(Addendum {
        kind: Some(AddendumKind::Activation(Activation {
            payload: Some(payload),
            new_node_signature: sign(&key3, &payload_bytes),
            endorser_signature: sign(&key1, &payload_bytes),
        })),
    });
    let result = verify_roster(&roster, 1, &spki(&key1));
    assert!(matches!(result, Err(RosterVerificationError::EndorserNotInPreviousRoster { .. })));
}

#[test]
fn test_revocation_verifies() {
    let key1 = generate_key();
    let key2 = generate_key();
    let key3 = generate_key();
    let mut roster = build_bootstrap_roster(&key1, 1, &key2, 2);
    add_node(&mut roster, &key3, 3, &key1, 1);
    revoke_node(&mut roster, 1, &key3, 3);
    let result = verify_roster(&roster, 3, &spki(&key3));
    assert!(result.is_ok());
    let keys = result.unwrap();
    assert_eq!(keys.len(), 2);
    assert!(keys.contains_key(&2));
    assert!(keys.contains_key(&3));
    assert!(!keys.contains_key(&1));
}

#[test]
fn test_invalid_revoker_signature() {
    let key1 = generate_key();
    let key2 = generate_key();
    let key3 = generate_key();
    let mut roster = build_bootstrap_roster(&key1, 1, &key2, 2);
    add_node(&mut roster, &key3, 3, &key1, 1);
    revoke_node(&mut roster, 1, &key3, 3);
    if let Some(AddendumKind::Revocation(ref mut rev)) = roster.addenda[2].kind {
        rev.revoker_signature = vec![0u8; 64];
    }
    let result = verify_roster(&roster, 2, &spki(&key2));
    assert!(matches!(result, Err(RosterVerificationError::InvalidRevokerSignature(3))));
}

#[test]
fn test_revoked_node_cannot_endorse() {
    let key1 = generate_key();
    let key2 = generate_key();
    let key3 = generate_key();
    let key4 = generate_key();
    let mut roster = build_bootstrap_roster(&key1, 1, &key2, 2);
    add_node(&mut roster, &key3, 3, &key1, 1);
    revoke_node(&mut roster, 1, &key3, 3);
    let base_hash = compute_roster_hash(&roster);
    let payload = ActivationPayload {
        base_version: roster.version,
        base_version_hash: base_hash,
        new_version: roster.version + 1,
        new_node_number: 4,
        endorser_node_number: 1,
        new_node_nonce: b"nonce".to_vec(),
        endorser_nonce: b"endorser_nonce".to_vec(),
    };
    let payload_bytes = payload.encode_to_vec();
    roster.version += 1;
    roster.nodes.push(node(4, &key4));
    roster.addenda.push(Addendum {
        kind: Some(AddendumKind::Activation(Activation {
            payload: Some(payload),
            new_node_signature: sign(&key4, &payload_bytes),
            endorser_signature: sign(&key1, &payload_bytes),
        })),
    });
    let result = verify_roster(&roster, 2, &spki(&key2));
    assert!(matches!(result, Err(RosterVerificationError::EndorserNotInPreviousRoster { .. })));
}

#[test]
fn test_revoked_node_cannot_revoke() {
    let key1 = generate_key();
    let key2 = generate_key();
    let key3 = generate_key();
    let key4 = generate_key();
    let mut roster = build_bootstrap_roster(&key1, 1, &key2, 2);
    add_node(&mut roster, &key3, 3, &key2, 2);
    add_node(&mut roster, &key4, 4, &key3, 3);
    revoke_node(&mut roster, 1, &key2, 2);
    let base_hash = compute_roster_hash(&roster);
    let payload = RevocationPayload {
        base_version: roster.version,
        base_version_hash: base_hash,
        new_version: roster.version + 1,
        revoked_node_number: 4,
        revoker_node_number: 1,
    };
    let payload_bytes = payload.encode_to_vec();
    roster.version += 1;
    if let Some(n) = roster.nodes.iter_mut().find(|n| n.node_number == 4) {
        n.revoked = true;
    }
    roster.addenda.push(Addendum {
        kind: Some(AddendumKind::Revocation(Revocation {
            payload: Some(payload),
            revoker_signature: sign(&key1, &payload_bytes),
        })),
    });
    let result = verify_roster(&roster, 2, &spki(&key2));
    assert!(matches!(result, Err(RosterVerificationError::RevokerNotInPreviousRoster { .. })));
}

#[test]
fn test_active_nodes_filters_revoked() {
    let key1 = generate_key();
    let key2 = generate_key();
    let key3 = generate_key();
    let key4 = generate_key();
    let mut roster = build_bootstrap_roster(&key1, 1, &key2, 2);
    add_node(&mut roster, &key3, 3, &key1, 1);
    add_node(&mut roster, &key4, 4, &key2, 2);
    revoke_node(&mut roster, 3, &key4, 4);
    let active = active_nodes(&roster);
    assert_eq!(active.len(), 3);
    assert!(active.iter().any(|n| n.node_number == 1));
    assert!(active.iter().any(|n| n.node_number == 2));
    assert!(active.iter().any(|n| n.node_number == 4));
    assert!(!active.iter().any(|n| n.node_number == 3));
}

#[test]
fn test_complex_roster_lifecycle() {
    let keys: Vec<_> = (0..6).map(|_| generate_key()).collect();
    let mut roster = build_bootstrap_roster(&keys[0], 0, &keys[1], 1);
    add_node(&mut roster, &keys[2], 2, &keys[1], 1);
    add_node(&mut roster, &keys[3], 3, &keys[0], 0);
    add_node(&mut roster, &keys[4], 4, &keys[2], 2);
    revoke_node(&mut roster, 1, &keys[2], 2);
    add_node(&mut roster, &keys[5], 5, &keys[3], 3);
    for &active_node in &[0, 2, 3, 4, 5] {
        let result = verify_roster(&roster, active_node, &spki(&keys[active_node as usize]));
        assert!(result.is_ok(), "Node {} should verify", active_node);
        let verified_keys = result.unwrap();
        assert_eq!(verified_keys.len(), 5);
        assert!(!verified_keys.contains_key(&1));
    }
    let result = verify_roster(&roster, 1, &spki(&keys[1]));
    assert!(matches!(result, Err(RosterVerificationError::VerifierRevoked(1))));
}

#[test]
fn test_create_bootstrap_roster_verifies() {
    let key_a = generate_key();
    let key_b = generate_key();
    let payload = build_activation_payload(
        &Roster::default(),
        1,
        2,
        b"new_node_nonce".to_vec(),
        b"endorser_nonce".to_vec(),
    );
    let payload_bytes = payload.encode_to_vec();
    let mut roster = create_bootstrap_roster(
        1,
        &spki(&key_a),
        2,
        &spki(&key_b),
        payload.new_node_nonce.clone(),
        payload.endorser_nonce.clone(),
        sign(&key_b, &payload_bytes),
    );
    if let Some(AddendumKind::Activation(activation)) = roster.addenda[0].kind.as_mut() {
        activation.endorser_signature = sign(&key_a, &payload_bytes);
    }
    let result = verify_roster(&roster, 1, &spki(&key_a));
    assert!(result.is_ok(), "Bootstrap roster should verify from node 1: {:?}", result);
    let result = verify_roster(&roster, 2, &spki(&key_b));
    assert!(result.is_ok(), "Bootstrap roster should verify from node 2: {:?}", result);
}

#[test]
fn test_create_activation_roster_verifies() {
    let key_a = generate_key();
    let key_b = generate_key();
    let key_c = generate_key();
    let base_roster = build_bootstrap_roster(&key_a, 1, &key_b, 2);
    let payload = build_activation_payload(
        &base_roster,
        1,
        3,
        b"new_node_nonce".to_vec(),
        b"endorser_nonce".to_vec(),
    );
    let payload_bytes = payload.encode_to_vec();
    let mut roster = create_activation_roster(
        &base_roster,
        1,
        3,
        &spki(&key_c),
        payload.new_node_nonce.clone(),
        payload.endorser_nonce.clone(),
        sign(&key_c, &payload_bytes),
    );
    if let Some(AddendumKind::Activation(activation)) =
        roster.addenda.last_mut().and_then(|a| a.kind.as_mut())
    {
        activation.endorser_signature = sign(&key_a, &payload_bytes);
    }
    let result = verify_roster(&roster, 1, &spki(&key_a));
    assert!(result.is_ok(), "Activation roster should verify from node 1: {:?}", result);
    let result = verify_roster(&roster, 3, &spki(&key_c));
    assert!(result.is_ok(), "Activation roster should verify from node 3: {:?}", result);
}

#[test]
fn test_create_revocation_roster_verifies() {
    let key_a = generate_key();
    let key_b = generate_key();
    let key_c = generate_key();
    let mut base_roster = build_bootstrap_roster(&key_a, 1, &key_b, 2);
    add_node(&mut base_roster, &key_c, 3, &key_a, 1);
    let base_hash = compute_roster_hash(&base_roster);
    let revocation_payload = RevocationPayload {
        base_version: base_roster.version,
        base_version_hash: base_hash,
        new_version: base_roster.version + 1,
        revoked_node_number: 2,
        revoker_node_number: 1,
    };
    let payload_bytes = revocation_payload.encode_to_vec();
    let roster = create_revocation_roster(&base_roster, 2, 1, sign(&key_a, &payload_bytes));
    let result = verify_roster(&roster, 1, &spki(&key_a));
    assert!(result.is_ok(), "Revocation roster should verify from node 1: {:?}", result);
    let result = verify_roster(&roster, 3, &spki(&key_c));
    assert!(result.is_ok(), "Revocation roster should verify from node 3: {:?}", result);
    let result = verify_roster(&roster, 2, &spki(&key_b));
    assert!(matches!(result, Err(RosterVerificationError::VerifierRevoked(2))));
}

#[test]
fn self_revocation_roster_is_refused_by_every_node() {
    let key_a = generate_key();
    let key_b = generate_key();
    let key_c = generate_key();
    let mut base_roster = build_bootstrap_roster(&key_a, 1, &key_b, 2);
    add_node(&mut base_roster, &key_c, 3, &key_a, 1);
    let revocation_payload = RevocationPayload {
        base_version: base_roster.version,
        base_version_hash: compute_roster_hash(&base_roster),
        new_version: base_roster.version + 1,
        revoked_node_number: 2,
        revoker_node_number: 2,
    };
    let roster = create_revocation_roster(&base_roster, 2, 2, sign(&key_b, &revocation_payload.encode_to_vec()));
    assert!(matches!(verify_roster(&roster, 2, &spki(&key_b)), Err(RosterVerificationError::VerifierRevoked(2))));
    for (n, key) in [(1, &key_a), (3, &key_c)] {
        match verify_roster(&roster, n, &spki(key)) {
            Err(RosterVerificationError::RevokerNotInPreviousRoster { version, revoker }) => {
                assert_eq!(version, 3);
                assert_eq!(revoker, 2);
            }
            other => panic!("expected RevokerNotInPreviousRoster, got {:?}", other),
        }
    }
}

#[test]
fn base_hash_of_an_activation_is_its_base() {
    let key_a = generate_key();
    let key_b = generate_key();
    let key_c = generate_key();
    let base = build_bootstrap_roster(&key_a, 1, &key_b, 2);
    let mut grown = base.duplicate();
    add_node(&mut grown, &key_c, 3, &key_a, 1);
    let base_hash = compute_roster_hash(&base);
    assert!(verify_base_hash(&grown, base.version, &base_hash, base.version + 1).is_ok());
    assert!(matches!(
        verify_base_hash(&grown, base.version, b"fake_hash", base.version + 1),
        Err(RosterVerificationError::BaseHashMismatch(v)) if v == base.version + 1
    ));
}
