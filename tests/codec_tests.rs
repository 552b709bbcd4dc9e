use easy_kafka::descriptor::{ConnectionDescriptor, SecurityMode};
use easy_kafka::error::EasyKafkaError;
use easy_kafka::token::{create_token, decode_claims_text, Claims, TOKEN_LIFETIME_SECS};

fn descriptor(password: &str) -> ConnectionDescriptor {
    ConnectionDescriptor::new(
        vec!["k1:9092".to_string(), "k2:9092".to_string()],
        SecurityMode::SaslSsl,
        Some("PLAIN".to_string()),
        Some("admin".to_string()),
        Some(password.to_string()),
        3000,
    )
    .unwrap()
}

#[test]
fn create_token_test() {
    let token = create_token("localhost:9092", "admin", "admin").unwrap();
    println!("token: {}", token);
    assert_eq!(token.split('.').count(), 3);
}

#[test]
fn claims_json_text() {
    let c = Claims::issue(descriptor("p\"w\\x\n"), 10);
    assert_eq!(
        c.to_json(),
        "{\"iss\":\"EasyKafka\",\"sub\":\"EasyKafka Subject\",\"exp\":3610,\"iat\":10,\"connection\":{\"bootstrap_servers\":[\"k1:9092\",\"k2:9092\"],\"security_mode\":\"SaslSsl\",\"sasl_mechanism\":\"PLAIN\",\"username\":\"admin\",\"password\":\"p\\\"w\\\\x\\u000a\",\"timeout_ms\":3000}}"
    );
}

#[test]
fn claims_json_is_valid_json() {
    let mut d = descriptor("é\u{1}\"");
    d.sasl_mechanism = None;
    let c = Claims::issue(d, 10);
    let v: serde_json::Value = serde_json::from_str(&c.to_json()).unwrap();
    assert_eq!(v["iss"], "EasyKafka");
    assert_eq!(v["exp"], 3610);
    assert_eq!(v["connection"]["password"], "é\u{1}\"");
    assert!(v["connection"]["sasl_mechanism"].is_null());
    assert_eq!(v["connection"]["bootstrap_servers"][1], "k2:9092");
}

#[test]
fn token_round_trip_keeps_claims_text() {
    let c = Claims::issue(descriptor("pw"), 1_000);
    let token = c.encode().unwrap();
    assert_ne!(token, c.to_json());
    assert_eq!(decode_claims_text(&token), Ok(c.to_json()));
    let d = c.validate(1_000 + TOKEN_LIFETIME_SECS - 1).unwrap();
    assert_eq!(d.password.as_deref(), Some("pw"));
}

#[test]
fn tampered_token_is_invalid() {
    let token = Claims::issue(descriptor("pw"), 1_000).encode().unwrap();
    let other = Claims::issue(descriptor("other"), 1_000).encode().unwrap();
    let parts: Vec<&str> = token.split('.').collect();
    let other_parts: Vec<&str> = other.split('.').collect();
    let forged = format!("{}.{}.{}", parts[0], other_parts[1], parts[2]);
    assert_eq!(decode_claims_text(&forged), Err(EasyKafkaError::InvalidToken));
    assert_eq!(decode_claims_text("not a token"), Err(EasyKafkaError::InvalidToken));
    assert_eq!(decode_claims_text(""), Err(EasyKafkaError::InvalidToken));
}

#[test]
fn token_with_foreign_secret_is_invalid() {
    let claims: serde_json::Value = serde_json::from_str(&Claims::issue(descriptor("pw"), 1_000).to_json()).unwrap();
    let token = jsonwebtoken::encode(
        &jsonwebtoken::Header::new(jsonwebtoken::Algorithm::HS256),
        &claims,
        &jsonwebtoken::EncodingKey::from_secret(b"another secret"),
    )
    .unwrap();
    assert_eq!(decode_claims_text(&token), Err(EasyKafkaError::InvalidToken));
}

#[test]
fn expired_token_still_verifies_but_is_rejected() {
    let c = Claims::issue(descriptor("pw"), 1_000);
    let token = c.encode().unwrap();
    assert!(decode_claims_text(&token).is_ok());
    assert_eq!(c.validate(1_000 + TOKEN_LIFETIME_SECS + 5).err(), Some(EasyKafkaError::InvalidToken));
}
