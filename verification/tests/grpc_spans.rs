use gcloud_observability::grpc_tracing::{
    create_grpc_span, endpoint_parts_from, parse_endpoint, parse_method, TracingTowerLayer, UriParts,
};
use gcloud_observability::span::AttributeValue;

fn s(v: &str) -> AttributeValue {
    AttributeValue::Str(v.to_string())
}

#[test]
fn parse_method_splits_service_and_method() {
    assert_eq!(
        parse_method("/google.test.v1.EchoService/Echo"),
        ("google.test.v1.EchoService".to_string(), "Echo".to_string())
    );
    assert_eq!(parse_method("//a.B/C"), ("a.B".to_string(), "C".to_string()));
}

#[test]
fn parse_method_rejects_other_shapes() {
    let unknown = ("unknown".to_string(), "unknown".to_string());
    assert_eq!(parse_method("/onlyservice"), unknown);
    assert_eq!(parse_method("/a/b/c"), unknown);
    assert_eq!(parse_method(""), unknown);
}

#[test]
fn parse_endpoint_reads_host_and_port() {
    assert_eq!(
        parse_endpoint("http://127.0.0.1:12345"),
        ("127.0.0.1".to_string(), Some(12345), "127.0.0.1".to_string())
    );
    assert_eq!(
        parse_endpoint("https://storage.googleapis.com"),
        ("storage.googleapis.com".to_string(), Some(443), "storage.googleapis.com".to_string())
    );
    assert_eq!(
        parse_endpoint("http://localhost"),
        ("localhost".to_string(), Some(80), "localhost".to_string())
    );
}

#[test]
fn parse_endpoint_falls_back_to_raw_text() {
    assert_eq!(
        parse_endpoint("not a uri"),
        ("not a uri".to_string(), None, "not a uri".to_string())
    );
}

#[test]
fn endpoint_parts_from_uses_scheme_default_port() {
    let parts = UriParts { host: Some("h.example".to_string()), port: None, scheme: Some("https".to_string()) };
    assert_eq!(
        endpoint_parts_from("https://h.example", Some(parts)),
        ("h.example".to_string(), Some(443), "h.example".to_string())
    );
    let no_host = UriParts { host: None, port: Some(8080), scheme: Some("ftp".to_string()) };
    assert_eq!(endpoint_parts_from("/path", Some(no_host)), ("/path".to_string(), Some(8080), "/path".to_string()));
    let no_port = UriParts { host: Some("h".to_string()), port: None, scheme: Some("ftp".to_string()) };
    assert_eq!(endpoint_parts_from("ftp://h", Some(no_port)), ("h".to_string(), None, "h".to_string()));
    assert_eq!(endpoint_parts_from("x y", None), ("x y".to_string(), None, "x y".to_string()));
}

#[test]
fn test_grpc_basic_span() {
    let span = create_grpc_span("/google.test.v1.EchoService/Echo", "http://127.0.0.1:40000");
    assert_eq!(span.name(), "grpc.request");
    assert_eq!(span.get("otel.name"), Some(s("google.test.v1.EchoService/Echo")));
    assert_eq!(span.get("rpc.system"), Some(s("grpc")));
    assert_eq!(span.get("otel.kind"), Some(s("client")));
    assert_eq!(span.get("rpc.service"), Some(s("google.test.v1.EchoService")));
    assert_eq!(span.get("rpc.method"), Some(s("Echo")));
    assert_eq!(span.get("server.address"), Some(s("127.0.0.1")));
    assert_eq!(span.get("server.port"), Some(AttributeValue::Int(40000)));
    assert_eq!(span.get("url.domain"), Some(s("127.0.0.1")));
    assert_eq!(span.get("rpc.grpc.status_code"), None);
    assert!(span.field_names().contains(&"rpc.grpc.status_code"));
    assert!(span.field_names().contains(&"error.type"));
}

#[test]
fn test_grpc_custom_endpoint() {
    let layer = TracingTowerLayer::new("http://127.0.0.1:12345".to_string());
    let service = layer.layer(());
    let span = service.request_span("/google.test.v1.EchoService/Echo");
    assert_eq!(span.get("server.address"), Some(s("127.0.0.1")));
    assert_eq!(span.get("server.port"), Some(AttributeValue::Int(12345)));
    assert_eq!(span.get("url.domain"), Some(s("127.0.0.1")));
}

#[test]
fn layer_keeps_its_endpoint() {
    let layer = TracingTowerLayer::new("https://x.googleapis.com".to_string());
    assert_eq!(layer.endpoint(), "https://x.googleapis.com");
    let default = TracingTowerLayer::default();
    assert_eq!(default.endpoint(), "");
    let mut service = layer.layer(7u32);
    *service.inner_mut() += 1;
    assert_eq!(*service.inner_mut(), 8);
}
