use wispers_connect::crypto::{PairingSecret, X25519KeyPair};
use wispers_connect::errors::{
    node_state_to_ffi, NodeState, NodeStateError, StorageError, WispersNodeState, WispersStatus,
};
use wispers_connect::node::{
    registration_of, registration_url, restore_decision, HubNode, InMemoryNodeStateStore, LogoutPlan,
    logout_first_stage, logout_step, LogoutStage, Node, NodeStateStore, NodeStorage, RestoreDecision,
    RestoreStep,
};
use wispers_connect::p2p::P2pError;
use wispers_connect::proto::{AddendumKind, Roster};
use wispers_connect::roster::verify_roster;
use wispers_connect::serving::{HubReply, RosterCosignRequest, ServingState};
use wispers_connect::types::{
    AuthToken, ConnectivityGroupId, NodeRegistration, PersistedNodeState,
};

fn registration(node_number: i32) -> NodeRegistration {
    NodeRegistration::new(ConnectivityGroupId::new("group-123"), node_number, AuthToken::new("token"))
}

fn registered_node(root: u8, node_number: i32) -> Node {
    let state = PersistedNodeState::from_stored([root; 32], Some(registration(node_number)));
    Node::new_registered(state).unwrap()
}

#[test]
fn state_detection_works() {
    let persisted = PersistedNodeState::new();
    let node = Node::new_pending(persisted);
    assert_eq!(node.state(), NodeState::Pending);
    let mut persisted = PersistedNodeState::new();
    persisted.set_registration(registration(1));
    let node = Node::new_registered(persisted).unwrap();
    assert_eq!(node.state(), NodeState::Registered);
}

#[test]
fn storage_initializes_and_reuses_local_state() {
    let mut storage = NodeStorage::new(InMemoryNodeStateStore::new());
    let first = match storage.restore_or_init_local().unwrap() {
        RestoreStep::Ready(n) => n,
        RestoreStep::NeedsRoster(_) => panic!("a fresh store holds no registration"),
    };
    assert_eq!(first.state(), NodeState::Pending);
    let first_key = *first.root_key_bytes();
    let second = match storage.restore_or_init_local().unwrap() {
        RestoreStep::Ready(n) => n,
        RestoreStep::NeedsRoster(_) => panic!("still not registered"),
    };
    assert_eq!(second.state(), NodeState::Pending);
    assert_eq!(second.root_key_bytes(), &first_key);
}

#[test]
fn node_completing_registration_persists_and_transitions() {
    let mut storage = NodeStorage::new(InMemoryNodeStateStore::new());
    let mut node = match storage.restore_or_init_local().unwrap() {
        RestoreStep::Ready(n) => n,
        RestoreStep::NeedsRoster(_) => panic!(),
    };
    assert_eq!(node.state(), NodeState::Pending);
    let reg = registration(1);
    storage.complete_registration(&mut node, reg.clone()).unwrap();
    assert_eq!(node.state(), NodeState::Registered);
    assert!(node.registration() == Some(&reg));
    let loaded = storage.load_state().unwrap().expect("state should be persisted");
    assert!(loaded.is_registered());
    assert!(loaded.registration() == Some(&reg));
    // a second registration is refused
    match storage.complete_registration(&mut node, registration(2)) {
        Err(NodeStateError::InvalidState { current, required }) => {
            assert_eq!(current, NodeState::Registered);
            assert_eq!(required, "Pending");
        }
        _ => panic!("expected InvalidState"),
    }
    // and a registered node restores as needing the roster
    match storage.restore_or_init_local().unwrap() {
        RestoreStep::NeedsRoster(state) => assert!(state.is_registered()),
        RestoreStep::Ready(_) => panic!(),
    }
    assert_eq!(storage.read_registration().unwrap().unwrap().node_number, 1);
}

#[test]
fn state_checks_and_statuses() {
    let pending = Node::new_pending(PersistedNodeState::new());
    assert!(pending.require_pending().is_ok());
    assert!(matches!(
        pending.require_at_least_registered(),
        Err(NodeStateError::InvalidState { current: NodeState::Pending, required: "Registered or Activated" })
    ));
    assert!(matches!(pending.connection_offer(2, "sdp", &X25519KeyPair::generate_ephemeral()), Err(P2pError::NotActivated)));
    assert!(matches!(pending.logout_plan(), LogoutPlan::DeleteLocal));
    let registered = registered_node(1, 5);
    assert!(registered.require_registered().is_ok());
    assert!(matches!(
        registered.require_activated(),
        Err(NodeStateError::InvalidState { current: NodeState::Registered, required: "Activated" })
    ));
    assert!(matches!(registered.logout_plan(), LogoutPlan::Deregister));
    assert_eq!(registered.node_number(), Some(5));
    assert_eq!(registered.connectivity_group_id().unwrap().as_str(), "group-123");
    assert_eq!(node_state_to_ffi(NodeState::Activated), WispersNodeState::Activated);
    assert_eq!(WispersStatus::from_error(&NodeStateError::NotRegistered), WispersStatus::NotRegistered);
    assert_eq!(
        WispersStatus::from_error(&NodeStateError::Store(StorageError::MissingCallback("load_root_key"))),
        WispersStatus::MissingCallback
    );
    assert_eq!(WispersStatus::InvalidState.code(), 15);
    assert_eq!(NodeState::Registered.name(), "Registered");
}

#[test]
fn node_list_marks_self_and_activation() {
    let node = registered_node(1, 2);
    let hub_nodes = vec![
        HubNode { node_number: 1, name: "a".to_string(), metadata: String::new(), last_seen_at_millis: 5, is_online: true },
        HubNode { node_number: 2, name: "b".to_string(), metadata: String::new(), last_seen_at_millis: 0, is_online: false },
    ];
    let infos = node.node_infos(hub_nodes).unwrap();
    assert_eq!(infos.len(), 2);
    assert!(!infos[0].is_self);
    assert!(infos[1].is_self);
    assert_eq!(infos[0].is_activated, None);
    assert_eq!(infos[0].name, "a");
    assert_eq!(infos[0].last_seen_at_millis, 5);
}

/// Two registered nodes pair, the endorser cosigns, the new node holds the
/// bootstrap roster, and then they open a connection.
#[test]
fn activation_and_connection_between_two_nodes() {
    let endorser = registered_node(11, 1);
    let mut newcomer = registered_node(22, 2);
    let mut session = ServingState::new(
        endorser.signing_key().duplicate(),
        ConnectivityGroupId::new("group-123"),
        1,
        Some(endorser.encryption_key().duplicate()),
    );
    let code = session.handle_generate_pairing_secret(PairingSecret::generate()).unwrap();
    assert_eq!(code.node_number, 1);
    let request = newcomer.begin_activation(&code.format(), vec![1, 2, 3]).unwrap();
    assert_eq!(request.endorser_node_number, 1);
    let reply = match session.handle_pair_nodes_message(request.message.clone(), vec![4, 5, 6]) {
        HubReply::Pair(m) => m,
        other => panic!("expected a pairing reply, got {:?}", other),
    };
    let endorser_reply = request.accept_response(reply).unwrap();
    assert_eq!(endorser_reply.endorser_nonce, vec![4, 5, 6]);
    let mut roster = newcomer.propose_roster(&request, &endorser_reply, &Roster::default()).unwrap();
    assert_eq!(roster.version, 1);
    let cosign = session.handle_roster_cosign_request(RosterCosignRequest {
        new_node_number: 2,
        new_roster: Some(roster.duplicate()),
    });
    let signature = match cosign {
        HubReply::Cosign(s) => s,
        other => panic!("expected a cosignature, got {:?}", other),
    };
    if let Some(AddendumKind::Activation(a)) = roster.addenda[0].kind.as_mut() {
        a.endorser_signature = signature;
    }
    assert!(verify_roster(&roster, 1, &endorser.signing_key().public_key_spki()).is_ok());
    newcomer.finish_activation(roster.duplicate()).unwrap();
    assert_eq!(newcomer.state(), NodeState::Activated);

    // the newcomer calls the endorser
    let caller_ephemeral = X25519KeyPair::generate_ephemeral();
    let offer = newcomer.connection_offer(1, "sdp-of-2", &caller_ephemeral).unwrap();
    assert_eq!(offer.caller_x25519_public_key, caller_ephemeral.public_key().to_vec());
    // each connection offers its own key
    let other_offer = newcomer.connection_offer(1, "sdp-of-2", &X25519KeyPair::generate_ephemeral()).unwrap();
    assert_ne!(offer.caller_x25519_public_key, other_offer.caller_x25519_public_key);
    assert_ne!(offer.caller_x25519_public_key, newcomer.encryption_key().public_key().to_vec());
    let caller_key = session.check_connection_request(&offer.caller_x25519_public_key).unwrap();
    let connection_id = session
        .authorize_connection(&roster, 2, 1, &offer.caller_x25519_public_key, "sdp-of-2", &offer.signature, true)
        .unwrap();
    assert_eq!(connection_id, 1);
    let answerer_ephemeral = X25519KeyPair::generate_ephemeral();
    let answer = session.answer_connection(connection_id, "sdp-of-1", &caller_key, &answerer_ephemeral).unwrap();
    assert_eq!(answer.answerer_x25519_public_key, answerer_ephemeral.public_key().to_vec());
    let secret = newcomer
        .accept_connection_response(1, answer.connection_id, &answer.answerer_x25519_public_key, "sdp-of-1", &answer.signature, &caller_ephemeral)
        .unwrap();
    assert_eq!(secret, answer.shared_secret);
    // a tampered SDP is refused
    assert!(matches!(
        newcomer.accept_connection_response(1, answer.connection_id, &answer.answerer_x25519_public_key, "other", &answer.signature, &caller_ephemeral),
        Err(P2pError::SignatureVerificationFailed)
    ));
    // the next connection takes the next id
    let second = session
        .authorize_connection(&roster, 2, 1, &offer.caller_x25519_public_key, "sdp-of-2", &offer.signature, true)
        .unwrap();
    assert_eq!(second, 2);

    // logging out the activated node revokes itself
    match newcomer.logout_plan() {
        LogoutPlan::RevokeAndDeregister(r) => {
            assert_eq!(r.version, 2);
            assert!(matches!(
                verify_roster(&r, 1, &endorser.signing_key().public_key_spki()),
                Err(wispers_connect::roster::RosterVerificationError::RevokerNotInPreviousRoster { .. })
            ));
        }
        _ => panic!("expected a self-revocation"),
    }
}

#[test]
fn restoring_with_a_roster() {
    let storage = NodeStorage::new(InMemoryNodeStateStore::new());
    let state = PersistedNodeState::from_stored([1u8; 32], Some(registration(3)));
    // a roster that does not list the node: Registered
    let node = storage.restore_with_roster(state.duplicate(), Roster::default()).unwrap();
    assert_eq!(node.state(), NodeState::Registered);
}

#[test]
fn pairing_with_a_wrong_secret_fails() {
    let node = registered_node(3, 2);
    assert!(matches!(
        node.begin_activation("not-a-code", vec![]),
        Err(NodeStateError::InvalidPairingCode(_))
    ));
    let mut session = ServingState::new(
        registered_node(4, 1).signing_key().duplicate(),
        ConnectivityGroupId::new("g"),
        1,
        None,
    );
    session.handle_generate_pairing_secret(PairingSecret::from_base36("0000000001").unwrap()).unwrap();
    let request = node.begin_activation("1-0000000002", vec![9]).unwrap();
    match session.handle_pair_nodes_message(request.message.clone(), vec![8]) {
        HubReply::Error(text) => assert_eq!(text, "MAC verification failed"),
        other => panic!("expected a refusal, got {:?}", other),
    }
    let mut store = InMemoryNodeStateStore::new();
    assert!(store.load().unwrap().is_none());
    store.save(&PersistedNodeState::new()).unwrap();
    assert!(store.load().unwrap().is_some());
    store.delete().unwrap();
    assert!(store.load().unwrap().is_none());
}

#[test]
fn registration_url_joins_query_parameters() {
    assert_eq!(
        registration_url("https://hub.example/register", "app", "default"),
        "https://hub.example/register?app_namespace=app&profile_namespace=default"
    );
    assert_eq!(
        registration_url("https://hub.example/register?x=1", "my app", "p/1"),
        "https://hub.example/register?x=1&app_namespace=my%20app&profile_namespace=p%2F1"
    );
}

#[test]
fn storage_initializes_and_reuses_state() {
    let mut storage = NodeStorage::new(InMemoryNodeStateStore::new());
    let first_node = match storage.restore_or_init_local().unwrap() {
        RestoreStep::Ready(n) => n,
        RestoreStep::NeedsRoster(_) => panic!("a fresh store holds no registration"),
    };
    assert_eq!(first_node.state(), NodeState::Pending);
    let first_key = *first_node.root_key_bytes();
    drop(first_node);
    let second_node = match storage.restore_or_init_local().unwrap() {
        RestoreStep::Ready(n) => n,
        RestoreStep::NeedsRoster(_) => panic!("still pending"),
    };
    assert_eq!(second_node.state(), NodeState::Pending);
    assert_eq!(second_node.root_key_bytes(), &first_key);
}

#[test]
fn hub_override_reaches_existing_nodes() {
    let mut storage = NodeStorage::new(InMemoryNodeStateStore::new());
    let node = match storage.restore_or_init_local().unwrap() {
        RestoreStep::Ready(n) => n,
        RestoreStep::NeedsRoster(_) => panic!(),
    };
    assert_eq!(node.hub_addr(&storage), "https://hub.connect.wispers.dev");
    storage.override_hub_addr("http://localhost:9");
    assert_eq!(node.hub_addr(&storage), "http://localhost:9");
}

#[test]
fn restore_decisions_follow_the_loaded_state() {
    assert!(matches!(restore_decision(None), RestoreDecision::Initialize));
    let fresh = PersistedNodeState::from_stored([3; 32], None);
    match restore_decision(Some(fresh)) {
        RestoreDecision::Pending(p) => assert_eq!(p.root_key_bytes(), &[3; 32]),
        _ => panic!("an unregistered state gives a Pending node"),
    }
    let registered = PersistedNodeState::from_stored([4; 32], Some(registration(6)));
    match restore_decision(Some(registered)) {
        RestoreDecision::NeedsRoster(p) => assert!(p.is_registered()),
        _ => panic!("a registered state needs the roster"),
    }
    assert!(registration_of(None).is_none());
    assert!(registration_of(Some(PersistedNodeState::from_stored([1; 32], None))).is_none());
    let reg = registration_of(Some(PersistedNodeState::from_stored([1; 32], Some(registration(8))))).unwrap();
    assert_eq!(reg.node_number, 8);
    let storage = NodeStorage::new(InMemoryNodeStateStore::new());
    assert!(storage.read_registration().unwrap().is_none());
}

#[test]
fn logout_steps_in_order_and_stop_on_failure() {
    assert_eq!(logout_first_stage(&LogoutPlan::DeleteLocal), LogoutStage::Deleting);
    assert_eq!(logout_first_stage(&LogoutPlan::Deregister), LogoutStage::Deregistering);
    assert_eq!(logout_first_stage(&LogoutPlan::RevokeAndDeregister(Roster::default())), LogoutStage::Revoking);
    assert_eq!(logout_step(LogoutStage::Revoking, Ok(())).unwrap(), LogoutStage::Deregistering);
    assert_eq!(logout_step(LogoutStage::Deregistering, Ok(())).unwrap(), LogoutStage::Deleting);
    assert_eq!(logout_step(LogoutStage::Deleting, Ok(())).unwrap(), LogoutStage::Finished);
    assert!(matches!(
        logout_step(LogoutStage::Revoking, Err(NodeStateError::NotRegistered)),
        Err(NodeStateError::NotRegistered)
    ));
}
