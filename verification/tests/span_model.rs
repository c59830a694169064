use gcloud_observability::client_tracing::split_rpc_name;
use gcloud_observability::packaging::map_swift_to_rust_target;
use gcloud_observability::span::{AttributeValue, SpanRecord};

fn sample() -> SpanRecord {
    SpanRecord::new(
        "op".to_string(),
        vec![
            ("a", Some(AttributeValue::Str("x".to_string()))),
            ("b", None),
            ("a", Some(AttributeValue::Int(2))),
        ],
    )
}

#[test]
fn later_entry_for_a_field_wins() {
    let span = sample();
    assert_eq!(span.name(), "op");
    assert_eq!(span.get("a"), Some(AttributeValue::Int(2)));
    assert_eq!(span.get("b"), None);
    assert_eq!(span.field_names(), vec!["a", "b", "a"]);
}

#[test]
fn record_then_read() {
    let mut span = sample();
    span.record("b", AttributeValue::Str("y".to_string()));
    assert_eq!(span.get("b"), Some(AttributeValue::Str("y".to_string())));
    assert_eq!(span.get("a"), Some(AttributeValue::Int(2)));
    span.record("b", AttributeValue::Int(7));
    assert_eq!(span.get("b"), Some(AttributeValue::Int(7)));
}

#[test]
fn recording_an_undeclared_field_is_ignored() {
    let mut span = sample();
    span.record("c", AttributeValue::Int(1));
    assert_eq!(span.get("c"), None);
    let mut attrs = span.attributes();
    attrs.sort_by(|x, y| x.0.cmp(&y.0));
    assert_eq!(attrs, vec![("a".to_string(), AttributeValue::Int(2))]);
}

#[test]
fn absent_optional_value_records_nothing() {
    let mut span = sample();
    span.record_opt("b", None);
    assert_eq!(span.get("b"), None);
    span.record_opt("b", Some(AttributeValue::Int(3)));
    assert_eq!(span.get("b"), Some(AttributeValue::Int(3)));
}

#[test]
fn rpc_name_split_rejoins() {
    let name = "google.cloud.test.v1.TestService/TestMethod";
    let (service, method) = split_rpc_name(name);
    assert_eq!(format!("{}/{}", service, method), name);
    let (service, method) = split_rpc_name("a/b/c");
    assert_eq!((service.as_str(), method.as_str()), ("a", "b/c"));
}

#[test]
fn target_mapping_is_idempotent() {
    for t in ["x86_64-swift-linux-musl", "arm64-apple-macosx", "wasm32-unknown-wasi", "x86_64-unknown-linux-gnu"] {
        let once = map_swift_to_rust_target(t);
        assert_eq!(map_swift_to_rust_target(once), once);
    }
}
