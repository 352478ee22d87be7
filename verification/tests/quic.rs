use wispers_connect::p2p::{check_open, ConnectionState, IceState};
use wispers_connect::quic::{
    conn_id_bytes, derive_psk, next_stream_candidate, psk_client_fill, psk_identity, psk_server_fill,
    quic_state,
    role_stream_base, QuicRole, QuicState, PSK_LEN,
};

#[test]
fn test_psk_derivation_deterministic() {
    let shared_secret = [42u8; 32];
    let psk1 = derive_psk(&shared_secret);
    let psk2 = derive_psk(&shared_secret);
    assert_eq!(psk1, psk2);
}

#[test]
fn test_psk_derivation_different_secrets() {
    let psk1 = derive_psk(&[1u8; 32]);
    let psk2 = derive_psk(&[2u8; 32]);
    assert_ne!(psk1, psk2);
}

#[test]
fn test_psk_length() {
    let psk = derive_psk(&[0u8; 32]);
    assert_eq!(psk.len(), 32);
}

#[test]
fn test_psk_not_all_zeros() {
    let psk = derive_psk(&[0u8; 32]);
    assert!(psk.iter().any(|&b| b != 0));
}

#[test]
fn psk_callback_and_ids() {
    let psk = derive_psk(&[7u8; 32]);
    assert_ne!(psk, [7u8; 32]);
    let (id, key) = psk_client_fill(64, 64, &psk).unwrap();
    assert_eq!(&id[..id.len() - 1], psk_identity());
    assert_eq!(id[id.len() - 1], 0);
    assert_eq!(key, psk.to_vec());
    assert!(psk_client_fill(18, 64, &psk).is_none());
    assert!(psk_client_fill(64, PSK_LEN - 1, &psk).is_none());
    assert_eq!(conn_id_bytes(0x0102030405060708), vec![1, 2, 3, 4, 5, 6, 7, 8]);
    assert_eq!(conn_id_bytes(-1), vec![255; 8]);
    assert_eq!(quic_state(false, false, true), QuicState::Established);
    assert_eq!(quic_state(true, true, true), QuicState::Closed);
}

#[test]
fn connection_states() {
    assert_eq!(ConnectionState::from_ice_state(IceState::Completed), ConnectionState::Connected);
    assert_eq!(ConnectionState::from_ice_state(IceState::Unknown(9)), ConnectionState::Failed);
    assert!(ConnectionState::Connected.is_connected());
    assert!(!ConnectionState::Gathering.is_connected());
    assert!(ConnectionState::Failed.is_disconnected());
    assert!(ConnectionState::Disconnected.is_disconnected());
    assert!(!ConnectionState::Connecting.is_disconnected());
    assert!(check_open(ConnectionState::Connected).is_ok());
    assert!(check_open(ConnectionState::Failed).is_err());
}

#[test]
fn stream_ids_skip_opened_ones() {
    assert_eq!(role_stream_base(QuicRole::Client), 0);
    assert_eq!(role_stream_base(QuicRole::Server), 1);
    assert_eq!(next_stream_candidate(&[], 0), Some(0));
    assert_eq!(next_stream_candidate(&[0, 4, 12], 0), Some(8));
    assert_eq!(next_stream_candidate(&[1, 5], 1), Some(9));
    assert_eq!(next_stream_candidate(&[0], 4), Some(4));
    assert_eq!(next_stream_candidate(&[], 400), Some(400));
    assert_eq!(next_stream_candidate(&[], 401), None);
    let all_server: Vec<u64> = (0..100).map(|k| 1 + 4 * k).collect();
    assert_eq!(next_stream_candidate(&all_server, 1), None);
}

#[test]
fn psk_server_callback_checks_identity() {
    let psk = [9u8; 32];
    assert_eq!(psk_server_fill(Some(b"wispers-connect-v1"), 32, &psk), Some(psk.to_vec()));
    assert_eq!(psk_server_fill(Some(b"wispers-connect-v1"), 64, &psk), Some(psk.to_vec()));
    assert_eq!(psk_server_fill(Some(b"wispers-connect-v1"), 31, &psk), None);
    assert_eq!(psk_server_fill(Some(b"wispers-connect-v2"), 32, &psk), None);
    assert_eq!(psk_server_fill(Some(b"wispers"), 32, &psk), None);
    assert_eq!(psk_server_fill(None, 32, &psk), None);
}
