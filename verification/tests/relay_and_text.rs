use train_viewer::api::Query;
use train_viewer::characteristics::{special_characteristics_value, tidy_spaces};
use train_viewer::feed::{consumer_settings, producer_settings, relay_record};

#[test]
fn consumer_uses_plain_sasl() {
    let s = consumer_settings("broker:9092", "group", "user", "pass");
    let pairs: Vec<(&str, &str)> = s.iter().map(|(k, v)| (k.as_str(), v.as_str())).collect();
    assert_eq!(
        pairs,
        vec![
            ("bootstrap.servers", "broker:9092"),
            ("group.id", "group"),
            ("auto.offset.reset", "earliest"),
            ("security.protocol", "SASL_SSL"),
            ("sasl.mechanism", "PLAIN"),
            ("sasl.username", "user"),
            ("sasl.password", "pass"),
            ("enable.auto.commit", "true"),
        ]
    );
}

#[test]
fn producer_settings_in_order() {
    let s = producer_settings("down:9092");
    let pairs: Vec<(&str, &str)> = s.iter().map(|(k, v)| (k.as_str(), v.as_str())).collect();
    assert_eq!(
        pairs,
        vec![
            ("bootstrap.servers", "down:9092"),
            ("message.timeout.ms", "5000"),
            ("broker.address.family", "v4"),
        ]
    );
}

#[test]
fn relay_keeps_key_and_payload() {
    let r = relay_record("consist", Some(b"k1"), Some(b"<xml/>"));
    assert_eq!(r.topic, "consist");
    assert_eq!(r.key.as_deref(), Some(&b"k1"[..]));
    assert_eq!(r.payload, b"<xml/>".to_vec());
    assert_eq!(r.headers.len(), 1);
    assert_eq!(r.headers[0].0, "ProcessedBy");
    assert_eq!(r.headers[0].1.as_deref(), Some("KafkaProxy"));
    let empty = relay_record("consist", None, None);
    assert!(empty.key.is_none());
    assert!(empty.payload.is_empty());
}

#[test]
fn spaces_are_tidied() {
    assert_eq!(tidy_spaces("  Air   conditioned  coach "), "Air conditioned coach");
    assert_eq!(tidy_spaces("   "), "");
    assert_eq!(tidy_spaces("a\tb"), "a\tb");
    for s in ["  a  b ", "", "x", " y  "] {
        let once = tidy_spaces(s);
        assert_eq!(tidy_spaces(&once), once);
    }
    let t = tidy_spaces(" x  y   z ");
    assert!(!t.starts_with(' ') && !t.ends_with(' ') && !t.contains("  "));
}

#[test]
fn characteristics_prefer_the_description() {
    assert_eq!(
        special_characteristics_value(Some("Sleeper  stock".to_string()), &Some("S".to_string())),
        Some("Sleeper stock".to_string())
    );
    assert_eq!(
        special_characteristics_value(None, &Some(" Q  R ".to_string())),
        Some("Q R".to_string())
    );
    assert_eq!(special_characteristics_value(None, &None), None);
}

#[test]
fn hello_answers_world() {
    assert_eq!(Query.hello(), "world");
}
