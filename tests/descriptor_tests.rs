use easy_kafka::descriptor::{ConnectionDescriptor, SecurityMode};
use easy_kafka::error::EasyKafkaError;

fn servers(s: &[&str]) -> Vec<String> {
    s.iter().map(|x| x.to_string()).collect()
}

#[test]
fn descriptor_accepts_plaintext_without_credentials() {
    let d = ConnectionDescriptor::new(servers(&["h:9092"]), SecurityMode::Plaintext, None, None, None, 10).unwrap();
    assert!(d.is_well_formed());
    assert_eq!(d.timeout_ms, 10);
}

#[test]
fn descriptor_rejects_empty_brokers() {
    let r = ConnectionDescriptor::new(vec![], SecurityMode::Plaintext, None, None, None, 10);
    assert!(matches!(r, Err(EasyKafkaError::InvalidDescriptor)));
    let r = ConnectionDescriptor::new(vec![], SecurityMode::Ssl, None, None, None, 10);
    assert!(matches!(r, Err(EasyKafkaError::InvalidDescriptor)));
}

#[test]
fn descriptor_rejects_zero_timeout() {
    let r = ConnectionDescriptor::new(servers(&["h:9092"]), SecurityMode::Ssl, None, None, None, 0);
    assert!(matches!(r, Err(EasyKafkaError::InvalidDescriptor)));
}

#[test]
fn descriptor_rejects_sasl_without_credentials() {
    let r = ConnectionDescriptor::new(
        servers(&["h:9092"]),
        SecurityMode::SaslPlaintext,
        Some("PLAIN".to_string()),
        Some("u".to_string()),
        None,
        10,
    );
    assert!(matches!(r, Err(EasyKafkaError::InvalidDescriptor)));
}

#[test]
fn key_ignores_timeout_only() {
    let a = ConnectionDescriptor::new(servers(&["h:9092"]), SecurityMode::Ssl, None, None, None, 10).unwrap();
    let b = ConnectionDescriptor::new(servers(&["h:9092"]), SecurityMode::Ssl, None, None, None, 99).unwrap();
    let c = ConnectionDescriptor::new(servers(&["h:9092"]), SecurityMode::Plaintext, None, None, None, 10).unwrap();
    assert!(a.key().same_as(&b.key()));
    assert!(!a.key().same_as(&c.key()));
}
