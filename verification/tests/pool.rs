use wispers_connect::pool::{
    ConnectionPool, CLEANUP_INTERVAL_NANOS, IDLE_TIMEOUT_NANOS, REQUEST_TIMEOUT_NANOS,
};

const SECOND: u64 = 1_000_000_000;

#[test]
fn timeouts_match_the_proxy_defaults() {
    assert_eq!(IDLE_TIMEOUT_NANOS, 60 * SECOND);
    assert_eq!(CLEANUP_INTERVAL_NANOS, 15 * SECOND);
    assert_eq!(REQUEST_TIMEOUT_NANOS, 30 * SECOND);
}

#[test]
fn reuse_only_what_was_pooled() {
    let mut pool: ConnectionPool<String> = ConnectionPool::new();
    assert!(!pool.touch(7, 0));
    assert!(pool.get(7).is_none());
    pool.insert(7, "conn-7".to_string(), 0);
    assert!(pool.touch(7, 10 * SECOND));
    assert_eq!(pool.get(7).map(|s| s.as_str()), Some("conn-7"));
    pool.insert(7, "conn-7b".to_string(), 11 * SECOND);
    assert_eq!(pool.get(7).map(|s| s.as_str()), Some("conn-7b"));
}

#[test]
fn cleanup_closes_exactly_the_idle_connections() {
    let mut pool: ConnectionPool<u32> = ConnectionPool::new();
    pool.insert(1, 100, 0);
    pool.insert(2, 200, 30 * SECOND);
    pool.insert(3, 300, 0);
    assert!(pool.touch(3, 50 * SECOND));
    let mut removed = pool.cleanup_idle(60 * SECOND);
    removed.sort();
    assert_eq!(removed, vec![1]);
    assert!(pool.get(1).is_none());
    assert_eq!(pool.get(2), Some(&200));
    assert_eq!(pool.get(3), Some(&300));
    assert!(pool.cleanup_idle(60 * SECOND).is_empty());
    let mut removed = pool.cleanup_idle(200 * SECOND);
    removed.sort();
    assert_eq!(removed, vec![2, 3]);
    assert!(pool.get(2).is_none());
}

#[test]
fn clock_reading_earlier_than_last_use_is_not_idle() {
    let mut pool: ConnectionPool<u32> = ConnectionPool::new();
    pool.insert(4, 1, 100 * SECOND);
    assert!(pool.cleanup_idle(SECOND).is_empty());
    assert_eq!(pool.get(4), Some(&1));
}
