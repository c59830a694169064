use std::collections::HashMap;

use gcloud_observability::attributes::OtelStatus;
use gcloud_observability::client_request;
use gcloud_observability::client_tracing;
use gcloud_observability::options::{InstrumentationClientInfo, RequestOptions, TransportSpanInfo};
use gcloud_observability::span::{AttributeValue, SpanRecord};

const INFO: InstrumentationClientInfo = InstrumentationClientInfo {
    service_name: "test.service",
    client_version: "1.2.3",
    client_artifact: "google-cloud-test",
    default_host: "example.com",
};

const TEST_INFO: InstrumentationClientInfo = InstrumentationClientInfo {
    service_name: "test.service",
    client_version: "1.2.3",
    client_artifact: "google-cloud-test",
    default_host: "test.googleapis.com",
};

fn s(v: &str) -> AttributeValue {
    AttributeValue::Str(v.to_string())
}

fn attrs(span: &SpanRecord) -> HashMap<String, AttributeValue> {
    span.attributes().into_iter().collect()
}

fn expected(pairs: Vec<(&str, AttributeValue)>) -> HashMap<String, AttributeValue> {
    pairs.into_iter().map(|(k, v)| (k.to_string(), v)).collect()
}

fn base_request_attributes() -> Vec<(&'static str, AttributeValue)> {
    vec![
        ("otel.name", s("test.method")),
        ("otel.kind", s("Internal")),
        ("gcp.client.service", s("test.service")),
        ("gcp.client.version", s("1.2.3")),
        ("gcp.client.artifact", s("google-cloud-test")),
        ("gcp.client.language", s("rust")),
        ("gcp.client.repo", s("googleapis/google-cloud-rust")),
    ]
}

#[test]
fn client_request_test_create_client_request_span() {
    let options = RequestOptions::new();
    let span = client_request::create_client_request_span("test.method", &INFO, &options);
    assert_eq!(span.name(), "client_request");
    assert_eq!(attrs(&span), expected(base_request_attributes()));
}

#[test]
fn client_request_test_enrich_client_request_span() {
    let options = RequestOptions::new();
    let mut span = client_request::create_client_request_span("test.method", &INFO, &options);
    let transport_info = TransportSpanInfo {
        http_status_code: Some(200),
        rpc_grpc_status_code: Some(0),
        error_type: None,
        otel_status: Some(OtelStatus::Success.as_str().to_string()),
        server_address: Some("1.2.3.4".to_string()),
        server_port: Some(443),
        url_full: Some("https://example.com/test".to_string()),
        request_resend_count: Some(1),
    };
    client_request::enrich_client_request_span(Some(&transport_info), &mut span);

    let mut want = base_request_attributes();
    want.extend(vec![
        ("http.response.status_code", AttributeValue::Int(200)),
        ("rpc.grpc.status_code", AttributeValue::Int(0)),
        ("server.address", s("1.2.3.4")),
        ("server.port", AttributeValue::Int(443)),
        ("url.full", s("https://example.com/test")),
        ("http.request.resend_count", AttributeValue::Int(1)),
        ("otel.status", s("Ok")),
    ]);
    assert_eq!(attrs(&span), expected(want));
}

#[test]
fn test_enrich_client_request_span_err() {
    let options = RequestOptions::new();
    let mut span = client_request::create_client_request_span("test.method", &INFO, &options);
    client_request::enrich_client_request_span_err("CLIENT_CONNECTION_ERROR", OtelStatus::Error, &mut span);

    let mut want = base_request_attributes();
    want.extend(vec![("error.type", s("CLIENT_CONNECTION_ERROR")), ("otel.status", s("Error"))]);
    assert_eq!(attrs(&span), expected(want));
}

#[test]
fn enrich_without_transport_info_changes_nothing() {
    let options = RequestOptions::new();
    let mut span = client_request::create_client_request_span("test.method", &INFO, &options);
    client_request::enrich_client_request_span(None, &mut span);
    assert_eq!(attrs(&span), expected(base_request_attributes()));
}

#[test]
fn client_tracing_test_create_client_request_span() {
    let options = RequestOptions::new();
    let rpc_name = "google.cloud.test.v1.TestService/TestMethod";
    let span = client_tracing::create_client_request_span(rpc_name, &options, Some(&TEST_INFO));
    assert_eq!(span.name(), "client_request");
    let want = expected(vec![
        ("otel.name", s(rpc_name)),
        ("otel.kind", s("client")),
        ("rpc.system", s("google_cloud")),
        ("rpc.service", s("google.cloud.test.v1.TestService")),
        ("rpc.method", s("TestMethod")),
        ("url.domain", s("test.googleapis.com")),
        ("gcp.client.service", s("test.service")),
        ("gcp.client.version", s("1.2.3")),
        ("gcp.client.repo", s("googleapis/google-cloud-rust")),
        ("gcp.client.artifact", s("google-cloud-test")),
        ("gcp.client.language", s("rust")),
        ("otel.status_code", s("UNSET")),
    ]);
    assert_eq!(attrs(&span), want);
}

#[test]
fn client_tracing_rpc_name_without_slash_is_unknown_service() {
    let options = RequestOptions::new();
    let span = client_tracing::create_client_request_span("Method", &options, None);
    assert_eq!(span.get("rpc.service"), Some(s("unknown_service")));
    assert_eq!(span.get("rpc.method"), Some(s("Method")));
    assert_eq!(span.get("url.domain"), None);
    assert_eq!(span.get("gcp.client.service"), None);
}

#[test]
fn client_tracing_test_enrich_client_request_span() {
    let options = RequestOptions::new();
    let mut span = client_tracing::create_client_request_span("test/method", &options, None);
    let transport_info = TransportSpanInfo {
        http_status_code: Some(200),
        server_address: Some("1.2.3.4".to_string()),
        server_port: Some(443),
        url_full: Some("https://test.googleapis.com/v1/resource".to_string()),
        request_resend_count: Some(1),
        ..Default::default()
    };
    client_tracing::enrich_client_request_span(&mut span, Some(&transport_info));

    assert_eq!(span.get("http.response.status_code"), Some(AttributeValue::Int(200)));
    assert_eq!(span.get("server.address"), Some(s("1.2.3.4")));
    assert_eq!(span.get("server.port"), Some(AttributeValue::Int(443)));
    assert_eq!(span.get("url.full"), Some(s("https://test.googleapis.com/v1/resource")));
    assert_eq!(span.get("http.request.resend_count"), Some(AttributeValue::Int(1)));
    assert_eq!(span.get("otel.status_code"), Some(s("OK")));
    assert_eq!(span.get("error.type"), None);
}

#[test]
fn test_enrich_client_request_span_error() {
    let options = RequestOptions::new();
    let mut span = client_tracing::create_client_request_span("test/method", &options, None);
    let transport_info = TransportSpanInfo {
        http_status_code: Some(404),
        error_type: Some("404".to_string()),
        rpc_grpc_status_code: Some(5),
        ..Default::default()
    };
    client_tracing::enrich_client_request_span(&mut span, Some(&transport_info));

    assert_eq!(span.get("http.response.status_code"), Some(AttributeValue::Int(404)));
    assert_eq!(span.get("error.type"), Some(s("404")));
    assert_eq!(span.get("rpc.grpc.status_code"), Some(AttributeValue::Int(5)));
    assert_eq!(span.get("grpc.status"), Some(AttributeValue::Int(5)));
    assert_eq!(span.get("otel.status_code"), Some(s("ERROR")));
}

#[test]
fn otel_status_texts() {
    assert_eq!(OtelStatus::Unset.as_str(), "Unset");
    assert_eq!(OtelStatus::Success.as_str(), "Ok");
    assert_eq!(OtelStatus::Error.as_str(), "Error");
}
