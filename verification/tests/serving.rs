use wispers_connect::crypto::{PairingSecret, SigningKeyPair};
use wispers_connect::proto::{PairNodesMessage, PairPayload};
use wispers_connect::serving::{
    EndorsingStatus, HubReply, RosterCosignRequest, ServingError, ServingState,
};
use wispers_connect::types::ConnectivityGroupId;

fn session() -> ServingState {
    ServingState::new(
        SigningKeyPair::derive_from_root_key(&[5u8; 32]),
        ConnectivityGroupId::new("cg"),
        7,
        None,
    )
}

#[test]
fn status_follows_the_endorsement() {
    let mut s = session();
    let status = s.build_status();
    assert!(status.connected);
    assert_eq!(status.node_number, 7);
    assert_eq!(status.connectivity_group_id.as_str(), "cg");
    assert!(status.endorsing.is_none());
    let secret = PairingSecret::from_base36("00000000ab").unwrap();
    let code = s.handle_generate_pairing_secret(secret.duplicate()).unwrap();
    assert_eq!(code.node_number, 7);
    assert_eq!(code.format(), "7-00000000ab");
    assert_eq!(s.build_status().endorsing, Some(EndorsingStatus::AwaitingPairNode));
    // only one pairing session at a time
    assert!(matches!(
        s.handle_generate_pairing_secret(PairingSecret::generate()),
        Err(ServingError::PairingSessionActive)
    ));
    // a valid pairing message moves to awaiting the cosign request
    let payload = PairPayload {
        sender_node_number: 9,
        receiver_node_number: 7,
        public_key_spki: vec![1, 2],
        nonce: vec![3],
        reply_nonce: vec![],
    };
    let mac = secret.compute_mac(&payload.encode_to_vec());
    let reply = s.handle_pair_nodes_message(PairNodesMessage { payload: Some(payload), mac }, vec![4]);
    match reply {
        HubReply::Pair(m) => {
            let p = m.payload.clone().unwrap();
            assert_eq!(p.sender_node_number, 7);
            assert_eq!(p.receiver_node_number, 9);
            assert_eq!(p.nonce, vec![4]);
            assert_eq!(p.reply_nonce, vec![3]);
            assert!(secret.verify_mac(&p.encode_to_vec(), &m.mac));
        }
        other => panic!("expected a pairing reply, got {:?}", other),
    }
    assert_eq!(
        s.build_status().endorsing,
        Some(EndorsingStatus::AwaitingCosign { new_node_number: 9 })
    );
    // a second pairing message finds no secret
    let again = PairNodesMessage {
        payload: Some(PairPayload {
            sender_node_number: 9,
            receiver_node_number: 7,
            public_key_spki: vec![],
            nonce: vec![],
            reply_nonce: vec![],
        }),
        mac: vec![],
    };
    assert!(matches!(s.handle_pair_nodes_message(again, vec![]), HubReply::Error("no active pairing session")));
}

#[test]
fn cosign_requests_are_checked() {
    let mut s = session();
    assert!(matches!(
        s.handle_roster_cosign_request(RosterCosignRequest { new_node_number: 9, new_roster: None }),
        HubReply::Error("no pending endorsement")
    ));
    let secret = PairingSecret::from_base36("00000000ab").unwrap();
    s.handle_generate_pairing_secret(secret.duplicate()).unwrap();
    let payload = PairPayload {
        sender_node_number: 9,
        receiver_node_number: 7,
        public_key_spki: vec![1, 2],
        nonce: vec![3],
        reply_nonce: vec![],
    };
    let mac = secret.compute_mac(&payload.encode_to_vec());
    s.handle_pair_nodes_message(PairNodesMessage { payload: Some(payload), mac }, vec![4]);
    assert!(matches!(
        s.handle_roster_cosign_request(RosterCosignRequest { new_node_number: 8, new_roster: None }),
        HubReply::Error("wrong node number")
    ));
    assert!(matches!(
        s.handle_roster_cosign_request(RosterCosignRequest { new_node_number: 9, new_roster: None }),
        HubReply::Error("missing roster")
    ));
    assert!(matches!(
        s.handle_roster_cosign_request(RosterCosignRequest {
            new_node_number: 9,
            new_roster: Some(wispers_connect::proto::Roster::default()),
        }),
        HubReply::Error("no activation addendum")
    ));
    // refusals keep the endorsement pending
    assert_eq!(
        s.build_status().endorsing,
        Some(EndorsingStatus::AwaitingCosign { new_node_number: 9 })
    );
    // connections are refused without P2P
    assert_eq!(s.check_connection_request(&[0u8; 32]).unwrap_err(), "P2P connections not available");
    let p2p = ServingState::new(
        SigningKeyPair::derive_from_root_key(&[5u8; 32]),
        ConnectivityGroupId::new("cg"),
        7,
        Some(wispers_connect::crypto::X25519KeyPair::derive_from_root_key(&[5u8; 32])),
    );
    assert_eq!(p2p.check_connection_request(&[0u8; 31]).unwrap_err(), "invalid X25519 public key");
    assert!(p2p.check_connection_request(&[0u8; 32]).is_ok());
}
