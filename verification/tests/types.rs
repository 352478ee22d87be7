use wispers_connect::types::{
    AuthToken, ConnectivityGroupId, NodeRegistration, PersistedNodeState, RootKey, ROOT_KEY_LEN,
};

fn registration_fixture() -> NodeRegistration {
    NodeRegistration::new(ConnectivityGroupId::new("group-123"), 1, AuthToken::new("test-token-456"))
}

#[test]
fn new_generates_random_root_key() {
    let state = PersistedNodeState::new();
    assert_eq!(state.root_key().as_bytes().len(), ROOT_KEY_LEN);
    assert!(!state.root_key().as_bytes().iter().all(|b| *b == 0));
}

#[test]
fn set_registration_marks_state() {
    let mut state = PersistedNodeState::new();
    let registration = registration_fixture();
    state.set_registration(registration.clone());
    assert!(state.is_registered());
    assert!(state.registration() == Some(&registration));
}

#[test]
fn root_keys_and_registrations() {
    let key = RootKey::from_bytes([9u8; 32]);
    assert_eq!(key.as_bytes(), &[9u8; 32]);
    let a = RootKey::generate();
    let b = RootKey::generate();
    assert_ne!(a.as_bytes(), b.as_bytes());
    let reg = registration_fixture();
    assert_eq!(reg.node_number, 1);
    assert_eq!(reg.connectivity_group_id.as_str(), "group-123");
    assert_eq!(reg.auth_token().map(|t| t.as_str()), Some("test-token-456"));
    let fresh = PersistedNodeState::default();
    assert!(!fresh.is_registered());
    assert!(fresh.registration().is_none());
    let restored = PersistedNodeState::from_stored([4u8; 32], Some(reg.clone()));
    assert_eq!(restored.root_key_bytes(), &[4u8; 32]);
    assert!(restored.registration() == Some(&reg));
}

#[test]
fn secrets_have_redacted_debug_text() {
    assert_eq!(RootKey::from_bytes([7; 32]).redacted_text(), "RootKey([redacted; 32])");
    assert_eq!(AuthToken::new("secret-token").redacted_text(), "AuthToken([redacted])");
}
