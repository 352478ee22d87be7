use wispers_connect::admin::{
    format_last_seen, node_line, node_tags, read_registration_sync, ApiKey, ApiKeyError,
    ReadRegistrationError,
};
use wispers_connect::daemon::{
    activation_code_response, not_connected_response, socket_file_name, status_response,
    EndorsingData, Request, Response, ResponseData,
};
use wispers_connect::crypto::{PairingCode, PairingSecret};
use wispers_connect::node::{InMemoryNodeStateStore, NodeStorage, RestoreStep};
use wispers_connect::serving::{EndorsingStatus, StatusInfo};
use wispers_connect::types::{AuthToken, ConnectivityGroupId, NodeInfo, NodeRegistration};

#[test]
fn api_keys() {
    let key = ApiKey::parse("  wc_prod_abc.secret \n").unwrap();
    assert_eq!(key.env(), "prod");
    assert_eq!(key.base_url(), "https://connect.wispers.dev");
    assert!(key.is_known_environment());
    assert_eq!(ApiKey::parse("wc_local_x.y").unwrap().base_url(), "http://localhost:3000");
    assert_eq!(ApiKey::parse("wc_staging_x.y").unwrap().base_url(), "https://staging.connect.wispers.dev");
    let odd = ApiKey::parse("wc_dev_x.y").unwrap();
    assert!(!odd.is_known_environment());
    assert_eq!(odd.base_url(), "https://staging.connect.wispers.dev");
    assert!(matches!(ApiKey::parse("xx_prod_a"), Err(ApiKeyError::MissingPrefix)));
    assert!(matches!(ApiKey::parse("wc_prod"), Err(ApiKeyError::InvalidFormat)));
    assert!(matches!(ApiKey::parse("wc__a.b"), Err(ApiKeyError::EmptyEnvironment)));
    assert_eq!(ApiKeyError::MissingPrefix.message(), "API key must start with 'wc_'");
}

#[test]
fn last_seen_texts() {
    let now = 1_000_000_000_000i64;
    assert_eq!(format_last_seen(0, now), "never connected");
    assert_eq!(format_last_seen(now + 5, now), "connected just now");
    assert_eq!(format_last_seen(now - 59_999, now), "connected just now");
    assert_eq!(format_last_seen(now - 60_000, now), "connected 1m ago");
    assert_eq!(format_last_seen(now - 3_599_999, now), "connected 59m ago");
    assert_eq!(format_last_seen(now - 3_600_000, now), "connected 1h ago");
    assert_eq!(format_last_seen(now - 86_400_000 * 3, now), "connected 3d ago");
}

#[test]
fn daemon_responses() {
    let status = StatusInfo {
        connected: true,
        connectivity_group_id: ConnectivityGroupId::new("cg"),
        node_number: 4,
        endorsing: Some(EndorsingStatus::AwaitingCosign { new_node_number: 9 }),
    };
    match status_response(&status) {
        Response::Success { ok, data: ResponseData::Status(s) } => {
            assert!(ok);
            assert!(s.connected);
            assert_eq!(s.node_number, 4);
            assert_eq!(s.cg_id, "cg");
            assert_eq!(s.endorsing, Some(EndorsingData::AwaitingCosign { new_node_number: 9 }));
        }
        other => panic!("unexpected {:?}", other),
    }
    match not_connected_response(Request::Status) {
        Response::Success { data: ResponseData::Status(s), .. } => {
            assert!(!s.connected);
            assert_eq!(s.node_number, 0);
        }
        other => panic!("unexpected {:?}", other),
    }
    match not_connected_response(Request::Shutdown) {
        Response::Error { ok, error } => {
            assert!(!ok);
            assert_eq!(error, "hub not connected yet");
        }
        other => panic!("unexpected {:?}", other),
    }
    let code = PairingCode::new(3, PairingSecret::from_base36("0000000abc").unwrap());
    match activation_code_response(&code) {
        Response::Success { data: ResponseData::ActivationCode(a), .. } => {
            assert_eq!(a.activation_code, "3-0000000abc")
        }
        other => panic!("unexpected {:?}", other),
    }
    assert!(matches!(Response::error("x".to_string()), Response::Error { ok: false, .. }));
    assert!(matches!(Response::success(ResponseData::Empty), Response::Success { ok: true, .. }));
    assert_eq!(socket_file_name("cg", 12), "cg-12.sock");
}

#[test]
fn registration_for_the_daemon() {
    let mut storage = NodeStorage::new(InMemoryNodeStateStore::new());
    assert!(matches!(read_registration_sync(&storage), Err(ReadRegistrationError::NotRegistered)));
    let mut node = match storage.restore_or_init_local().unwrap() {
        RestoreStep::Ready(n) => n,
        RestoreStep::NeedsRoster(_) => panic!(),
    };
    storage
        .complete_registration(
            &mut node,
            NodeRegistration::new(ConnectivityGroupId::new("cg-9"), 4, AuthToken::new("t")),
        )
        .unwrap();
    assert_eq!(read_registration_sync(&storage).unwrap(), ("cg-9".to_string(), 4));
    storage.override_hub_addr("http://localhost:1");
    assert_eq!(storage.hub_addr(), "http://localhost:1");
}

fn info(node_number: i32, name: &str, is_self: bool, is_activated: Option<bool>, last_seen: i64, is_online: bool) -> NodeInfo {
    NodeInfo {
        node_number,
        name: name.to_string(),
        is_self,
        is_activated,
        last_seen_at_millis: last_seen,
        is_online,
    }
}

#[test]
fn node_listing_lines() {
    let now = 10_000_000_000;
    assert_eq!(node_line(&info(1, "laptop", true, Some(true), 0, true), now), "  1: laptop (you, activated) - online");
    assert_eq!(node_line(&info(2, "", false, None, 0, false), now), "  2: (unnamed) - never connected");
    assert_eq!(
        node_line(&info(3, "pi", false, Some(false), now - 3 * 3_600_000, false), now),
        "  3: pi (not activated) - connected 3h ago"
    );
    assert_eq!(node_line(&info(4, "nas", true, None, now - 5_000, false), now), "  4: nas (you) - connected just now");
    assert_eq!(node_tags(false, Some(true)), " (activated)");
}
