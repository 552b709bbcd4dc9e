use easy_kafka::descriptor::{ConnectionDescriptor, SecurityMode};
use easy_kafka::error::EasyKafkaError;
use easy_kafka::pool::SessionPool;

fn sasl(servers: &[&str], user: &str, password: &str, timeout_ms: u64) -> ConnectionDescriptor {
    ConnectionDescriptor::new(
        servers.iter().map(|s| s.to_string()).collect(),
        SecurityMode::SaslPlaintext,
        Some("PLAIN".to_string()),
        Some(user.to_string()),
        Some(password.to_string()),
        timeout_ms,
    )
    .unwrap()
}

#[test]
fn same_key_shares_one_session() {
    let mut pool: SessionPool<u32> = SessionPool::new();
    let mut built = 0;
    let a = pool
        .acquire(&sasl(&["b1:9092", "b2:9092"], "admin", "pw", 5000), |_| {
            built += 1;
            Some(7)
        })
        .unwrap();
    // Same brokers and credentials, different timeout: same key.
    let b = pool
        .acquire(&sasl(&["b1:9092", "b2:9092"], "admin", "pw", 9000), |_| {
            built += 1;
            Some(8)
        })
        .unwrap();
    assert_eq!(built, 1);
    assert_eq!(a.id, b.id);
    assert_eq!(a.session, 7);
    assert_eq!(b.session, 7);
    assert!(a.created);
    assert!(!b.created);
    assert_eq!(pool.len(), 1);
}

#[test]
fn different_keys_never_share() {
    let mut pool: SessionPool<u32> = SessionPool::new();
    let a = pool.acquire(&sasl(&["b1:9092"], "admin", "pw", 5000), |_| Some(1)).unwrap();
    let b = pool.acquire(&sasl(&["b1:9092"], "admin", "other", 5000), |_| Some(2)).unwrap();
    let c = pool.acquire(&sasl(&["b2:9092"], "admin", "pw", 5000), |_| Some(3)).unwrap();
    let d = pool.acquire(&sasl(&["b2:9092", "b1:9092"], "admin", "pw", 5000), |_| Some(4)).unwrap();
    assert_eq!((a.id, b.id, c.id, d.id), (0, 1, 2, 3));
    assert_eq!((a.session, b.session, c.session, d.session), (1, 2, 3, 4));
    assert_eq!(pool.len(), 4);
}

#[test]
fn failed_construction_is_not_cached() {
    let mut pool: SessionPool<u32> = SessionPool::new();
    let d = sasl(&["b1:9092"], "admin", "pw", 5000);
    let first = pool.acquire(&d, |_| None);
    assert_eq!(first.err(), Some(EasyKafkaError::ConnectFailed));
    assert_eq!(pool.len(), 0);
    let second = pool.acquire(&d, |_| Some(42)).unwrap();
    assert!(second.created);
    assert_eq!(second.session, 42);
    assert_eq!(pool.len(), 1);
}

#[test]
fn repeated_acquire_builds_once() {
    let mut pool: SessionPool<u32> = SessionPool::new();
    let d = sasl(&["b1:9092"], "admin", "pw", 5000);
    let mut built = 0;
    for _ in 0..10 {
        let h = pool
            .acquire(&d, |_| {
                built += 1;
                Some(5)
            })
            .unwrap();
        assert_eq!(h.id, 0);
        assert_eq!(h.session, 5);
    }
    assert_eq!(built, 1);
}

#[test]
fn find_locates_pooled_key() {
    let mut pool: SessionPool<u32> = SessionPool::new();
    let d = sasl(&["b1:9092"], "admin", "pw", 5000);
    assert_eq!(pool.find(&d.key()), None);
    pool.acquire(&d, |_| Some(1)).unwrap();
    assert_eq!(pool.find(&d.key()), Some(0));
    assert_eq!(pool.find(&sasl(&["b9:9092"], "admin", "pw", 5000).key()), None);
}
