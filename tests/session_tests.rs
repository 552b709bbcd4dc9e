use easy_kafka::descriptor::{ConnectionDescriptor, SecurityMode};
use easy_kafka::error::EasyKafkaError;
use easy_kafka::response::CommonResponse;
use easy_kafka::session::{client_settings, connectivity_response, missing_id_response, resolve_profile};

fn pairs(v: &[(&str, &str)]) -> Vec<(String, String)> {
    v.iter().map(|(a, b)| (a.to_string(), b.to_string())).collect()
}

#[test]
fn settings_for_sasl_descriptor() {
    let d = ConnectionDescriptor::new(
        vec!["a:9092".to_string(), "b:9092".to_string(), "c:9092".to_string()],
        SecurityMode::SaslSsl,
        Some("PLAIN".to_string()),
        Some("admin".to_string()),
        Some("pw".to_string()),
        2500,
    )
    .unwrap();
    assert_eq!(
        client_settings(&d),
        pairs(&[
            ("bootstrap.servers", "a:9092,b:9092,c:9092"),
            ("security.protocol", "SASL_SSL"),
            ("sasl.mechanism", "PLAIN"),
            ("sasl.username", "admin"),
            ("sasl.password", "pw"),
            ("socket.timeout.ms", "2500"),
        ])
    );
}

#[test]
fn settings_for_plaintext_descriptor() {
    let d = ConnectionDescriptor::new(vec!["a:9092".to_string()], SecurityMode::Plaintext, None, None, None, 1).unwrap();
    assert_eq!(
        client_settings(&d),
        pairs(&[("bootstrap.servers", "a:9092"), ("security.protocol", "PLAINTEXT"), ("socket.timeout.ms", "1")])
    );
}

#[test]
fn connectivity_responses() {
    let ok = connectivity_response(Some(3));
    assert_eq!(ok.code, 200);
    assert_eq!(ok.msg, "success");
    assert_eq!(ok.data.as_deref(), Some("连接成功，broker数量: 3"));
    let failed = connectivity_response(None);
    assert_eq!(failed.code, 400);
    assert_eq!(failed.msg, "Kafka连接失败");
    assert!(failed.data.is_none());
}

#[test]
fn missing_identifier_response() {
    let r = missing_id_response("").unwrap();
    assert_eq!(r.code, 400);
    assert_eq!(r.msg, "token不能为空");
    assert!(missing_id_response("abc").is_none());
}

#[test]
fn profile_resolution() {
    let r = resolve_profile("gone", None);
    assert_eq!(r.err(), Some(EasyKafkaError::ConnectionNotFound("gone".to_string())));
    let d = ConnectionDescriptor::new(vec!["a:9092".to_string()], SecurityMode::Ssl, None, None, None, 5).unwrap();
    assert_eq!(resolve_profile("id", Some(d)).unwrap().timeout_ms, 5);
    let bad = ConnectionDescriptor {
        bootstrap_servers: vec![],
        security_mode: SecurityMode::Ssl,
        sasl_mechanism: None,
        username: None,
        password: None,
        timeout_ms: 5,
    };
    assert_eq!(resolve_profile("id", Some(bad)).err(), Some(EasyKafkaError::InvalidDescriptor));
}

#[test]
fn common_response_constructors() {
    let s: CommonResponse<u8> = CommonResponse::success(9);
    assert_eq!((s.code, s.msg.as_str(), s.data), (200, "success", Some(9)));
    let e: CommonResponse<u8> = CommonResponse::error("boom".to_string());
    assert_eq!((e.code, e.msg.as_str(), e.data), (400, "boom", None));
}

#[test]
fn admin_config_holds_settings() {
    let d = ConnectionDescriptor::new(
        vec!["a:9092".to_string(), "b:9092".to_string()],
        SecurityMode::SaslPlaintext,
        Some("PLAIN".to_string()),
        Some("u".to_string()),
        Some("p".to_string()),
        750,
    )
    .unwrap();
    let c = easy_kafka::session::admin_client_config(&d);
    assert_eq!(c.get("bootstrap.servers"), Some("a:9092,b:9092"));
    assert_eq!(c.get("security.protocol"), Some("SASL_PLAINTEXT"));
    assert_eq!(c.get("sasl.mechanism"), Some("PLAIN"));
    assert_eq!(c.get("sasl.username"), Some("u"));
    assert_eq!(c.get("sasl.password"), Some("p"));
    assert_eq!(c.get("socket.timeout.ms"), Some("750"));
    assert_eq!(c.config_map().len(), 6);
}
