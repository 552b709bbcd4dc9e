use easy_kafka::descriptor::{ConnectionDescriptor, SecurityMode};
use easy_kafka::error::EasyKafkaError;
use easy_kafka::token::{resolve_token, Claims, DEFAULT_TIMEOUT_MS, TOKEN_ISSUER, TOKEN_LIFETIME_SECS, TOKEN_SUBJECT};

fn descriptor() -> ConnectionDescriptor {
    ConnectionDescriptor::new(
        vec!["localhost:9092".to_string(), "other:9092".to_string()],
        SecurityMode::SaslSsl,
        Some("SCRAM-SHA-256".to_string()),
        Some("admin".to_string()),
        Some("secret".to_string()),
        1500,
    )
    .unwrap()
}

#[test]
fn claims_new_fields() {
    let c = Claims::new("localhost:9092", "admin", "admin");
    assert_eq!(c.issuer, TOKEN_ISSUER);
    assert_eq!(c.subject, TOKEN_SUBJECT);
    assert_eq!(c.expiration, c.issued_at + 3600);
    assert_eq!(c.connection.bootstrap_servers, vec!["localhost:9092".to_string()]);
    assert_eq!(c.connection.security_mode, SecurityMode::SaslPlaintext);
    assert_eq!(c.connection.sasl_mechanism.as_deref(), Some("PLAIN"));
    assert_eq!(c.connection.username.as_deref(), Some("admin"));
    assert_eq!(c.connection.password.as_deref(), Some("admin"));
    assert_eq!(c.connection.timeout_ms, DEFAULT_TIMEOUT_MS);
    assert!(c.issued_at > 1_600_000_000);
}

#[test]
fn claims_round_trip_before_expiry() {
    let c = Claims::issue(descriptor(), 1_000);
    assert_eq!(c.expiration, 1_000 + TOKEN_LIFETIME_SECS);
    let d = c.validate(1_000 + TOKEN_LIFETIME_SECS - 1).unwrap();
    assert_eq!(d.bootstrap_servers, descriptor().bootstrap_servers);
    assert_eq!(d.security_mode, SecurityMode::SaslSsl);
    assert_eq!(d.sasl_mechanism.as_deref(), Some("SCRAM-SHA-256"));
    assert_eq!(d.username.as_deref(), Some("admin"));
    assert_eq!(d.password.as_deref(), Some("secret"));
    assert_eq!(d.timeout_ms, 1500);
}

#[test]
fn expired_claims_are_invalid() {
    let c = Claims::issue(descriptor(), 1_000);
    assert_eq!(c.validate(1_000 + TOKEN_LIFETIME_SECS).err(), Some(EasyKafkaError::InvalidToken));
    let c = Claims::issue(descriptor(), 1_000);
    assert_eq!(c.validate(u64::MAX).err(), Some(EasyKafkaError::InvalidToken));
}

#[test]
fn wrong_issuer_is_invalid() {
    let mut c = Claims::issue(descriptor(), 1_000);
    c.issuer = "Someone".to_string();
    assert_eq!(c.validate(1_001).err(), Some(EasyKafkaError::InvalidToken));
}

#[test]
fn malformed_descriptor_in_claims_is_invalid() {
    let mut c = Claims::issue(descriptor(), 1_000);
    c.connection.username = None;
    assert_eq!(c.validate(1_001).err(), Some(EasyKafkaError::InvalidToken));
}

#[test]
fn unverified_token_is_invalid() {
    assert_eq!(resolve_token(None, 5).err(), Some(EasyKafkaError::InvalidToken));
    let ok = resolve_token(Some(Claims::issue(descriptor(), 0)), 5).unwrap();
    assert_eq!(ok.timeout_ms, 1500);
}
