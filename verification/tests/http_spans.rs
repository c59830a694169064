use gcloud_observability::http_span_info::{http_span_name_of, HttpSpanInfo};
use gcloud_observability::http_tracing::{
    create_http_attempt_span, create_transport_span_info, is_success, record_http_response_attributes,
    ErrorClassification, HttpOutcome, TransportOutcome,
};
use gcloud_observability::options::{InstrumentationClientInfo, RequestOptions};
use gcloud_observability::span::AttributeValue;
use gcloud_observability::url::ParsedUrl;

fn s(v: &str) -> AttributeValue {
    AttributeValue::Str(v.to_string())
}

fn url(text: &str) -> ParsedUrl {
    ParsedUrl::parse(text).expect("valid URL")
}

#[test]
fn test_http_span_info_new_basic() {
    let options = RequestOptions::new();
    let span_info = HttpSpanInfo::new("GET", &url("https://example.com/test"), &options, None, 0);

    assert_eq!(span_info.rpc_system, "http");
    assert_eq!(span_info.otel_kind, "Client");
    assert_eq!(span_info.otel_name, "GET");
    assert_eq!(span_info.otel_status, "Unset");
    assert_eq!(span_info.http_request_method, "GET");
    assert_eq!(span_info.server_address, Some("example.com".to_string()));
    assert_eq!(span_info.server_port, Some(443));
    assert_eq!(span_info.url_full, "https://example.com/test");
    assert_eq!(span_info.url_scheme, Some("https".to_string()));
    assert_eq!(span_info.url_template, None);
    assert_eq!(span_info.url_domain, None);
    assert_eq!(span_info.http_response_status_code, None);
    assert_eq!(span_info.error_type, None);
    assert_eq!(span_info.http_request_resend_count, None);
    assert_eq!(span_info.gcp_client_service, None);
    assert_eq!(span_info.gcp_client_version, None);
    assert_eq!(span_info.gcp_client_repo, "googleapis/google-cloud-rust");
    assert_eq!(span_info.gcp_client_artifact, None);
}

#[test]
fn test_http_span_info_new_with_instrumentation() {
    let options = RequestOptions::new();
    const INFO: InstrumentationClientInfo = InstrumentationClientInfo {
        service_name: "test.service",
        client_version: "1.2.3",
        client_artifact: "google-cloud-test",
        default_host: "test.service.dev",
    };
    let span_info =
        HttpSpanInfo::new("POST", &url("https://test.service.dev:443/v1/items"), &options, Some(&INFO), 0);

    assert_eq!(span_info.gcp_client_service, Some("test.service"));
    assert_eq!(span_info.gcp_client_version, Some("1.2.3"));
    assert_eq!(span_info.gcp_client_artifact, Some("google-cloud-test"));
    assert_eq!(span_info.url_domain, Some("test.service.dev"));
    assert_eq!(span_info.server_address, Some("test.service.dev".to_string()));
    assert_eq!(span_info.server_port, Some(443));
}

#[test]
fn test_http_span_info_new_with_path_template() {
    let options = RequestOptions::new().with_path_template(Some("/items/{item_id}".to_string()));
    let span_info = HttpSpanInfo::new("GET", &url("https://example.com/items/123"), &options, None, 0);

    assert_eq!(span_info.url_template, Some("/items/{item_id}".to_string()));
    assert_eq!(span_info.otel_name, "GET /items/{item_id}");
}

#[test]
fn test_http_span_info_new_with_attempt_count() {
    let options = RequestOptions::new();
    let u = url("https://example.com/test");
    assert_eq!(HttpSpanInfo::new("GET", &u, &options, None, 0).http_request_resend_count, None);
    assert_eq!(HttpSpanInfo::new("GET", &u, &options, None, 1).http_request_resend_count, Some(1));
    assert_eq!(HttpSpanInfo::new("GET", &u, &options, None, 5).http_request_resend_count, Some(5));
}

#[test]
fn span_name_with_and_without_template() {
    assert_eq!(http_span_name_of("PUT", None), "PUT");
    assert_eq!(http_span_name_of("PUT", Some("/v1/{name}")), "PUT /v1/{name}");
}

#[test]
fn parsed_url_ports() {
    let u = url("http://example.com/a");
    assert_eq!(u.port(), None);
    assert_eq!(u.port_or_known_default(), Some(80));
    assert_eq!(u.scheme(), "http");
    assert_eq!(u.host_str(), Some("example.com"));
    let v = url("https://example.com:8443/b");
    assert_eq!(v.port(), Some(8443));
    assert_eq!(v.port_or_known_default(), Some(8443));
    assert!(ParsedUrl::parse("not a url").is_none());
}

#[test]
fn attempt_span_attributes() {
    const INFO: InstrumentationClientInfo = InstrumentationClientInfo {
        service_name: "svc",
        client_version: "0.1.0",
        client_artifact: "google-cloud-svc",
        default_host: "svc.googleapis.com",
    };
    let options = RequestOptions::new().with_path_template(Some("/v1/{name}".to_string()));
    let span = create_http_attempt_span("GET", &url("https://[::1]:9000/v1/x"), &options, Some(&INFO), 2);
    assert_eq!(span.name(), "http_request");
    assert_eq!(span.get("otel.name"), Some(s("GET /v1/{name}")));
    assert_eq!(span.get("otel.kind"), Some(s("Client")));
    assert_eq!(span.get("rpc.system"), Some(s("http")));
    assert_eq!(span.get("http.request.method"), Some(s("GET")));
    assert_eq!(span.get("server.address"), Some(s("::1")));
    assert_eq!(span.get("server.port"), Some(AttributeValue::Int(9000)));
    assert_eq!(span.get("url.full"), Some(s("https://[::1]:9000/v1/x")));
    assert_eq!(span.get("url.scheme"), Some(s("https")));
    assert_eq!(span.get("url.template"), Some(s("/v1/{name}")));
    assert_eq!(span.get("url.domain"), Some(s("svc.googleapis.com")));
    assert_eq!(span.get("gcp.client.service"), Some(s("svc")));
    assert_eq!(span.get("http.request.resend_count"), Some(AttributeValue::Int(2)));
    assert_eq!(span.get("otel.status"), Some(s("Unset")));
    assert_eq!(span.get("http.response.status_code"), None);
}

fn not_found() -> ErrorClassification {
    ErrorClassification { error_type: "404".to_string(), grpc_code: 5, grpc_status: "NOT_FOUND".to_string() }
}

#[test]
fn success_response_marks_ok() {
    let options = RequestOptions::new();
    let mut span = create_http_attempt_span("GET", &url("https://example.com/"), &options, None, 0);
    record_http_response_attributes(&mut span, &HttpOutcome::Response(200), &not_found());
    assert_eq!(span.get("http.response.status_code"), Some(AttributeValue::Int(200)));
    assert_eq!(span.get("otel.status"), Some(s("Ok")));
    assert_eq!(span.get("error.type"), None);
}

#[test]
fn test_error_with_status() {
    let options = RequestOptions::new();
    let mut span = create_http_attempt_span("GET", &url("https://example.com/error"), &options, None, 0);
    record_http_response_attributes(&mut span, &HttpOutcome::Response(404), &not_found());
    assert_eq!(span.get("http.response.status_code"), Some(AttributeValue::Int(404)));
    assert_eq!(span.get("otel.status"), Some(s("Error")));
    assert_eq!(span.get("error.type"), Some(s("404")));
    assert_eq!(span.get("rpc.grpc.status_code"), Some(AttributeValue::Int(5)));
    assert_eq!(span.get("grpc.status"), Some(s("NOT_FOUND")));
}

#[test]
fn failed_request_records_error_without_status_code() {
    let options = RequestOptions::new();
    let mut span = create_http_attempt_span("GET", &url("https://example.com/"), &options, None, 0);
    let class = ErrorClassification {
        error_type: "CLIENT_CONNECTION_ERROR".to_string(),
        grpc_code: 14,
        grpc_status: "UNAVAILABLE".to_string(),
    };
    record_http_response_attributes(&mut span, &HttpOutcome::Failure, &class);
    assert_eq!(span.get("http.response.status_code"), None);
    assert_eq!(span.get("otel.status"), Some(s("Error")));
    assert_eq!(span.get("error.type"), Some(s("CLIENT_CONNECTION_ERROR")));
    assert_eq!(span.get("rpc.grpc.status_code"), Some(AttributeValue::Int(14)));
}

#[test]
fn success_class_bounds() {
    assert!(!is_success(199));
    assert!(is_success(200));
    assert!(is_success(299));
    assert!(!is_success(300));
}

#[test]
fn transport_info_of_response() {
    let outcome = TransportOutcome::Response {
        status: 200,
        url: "https://example.com/test".to_string(),
        remote: Some(("1.2.3.4".to_string(), 443)),
    };
    let info = create_transport_span_info(&outcome, 2, &not_found());
    assert_eq!(info.http_status_code, Some(200));
    assert_eq!(info.url_full, Some("https://example.com/test".to_string()));
    assert_eq!(info.server_address, Some("1.2.3.4".to_string()));
    assert_eq!(info.server_port, Some(443));
    assert_eq!(info.request_resend_count, Some(1));
    assert_eq!(info.error_type, None);
    assert_eq!(info.rpc_grpc_status_code, None);
    assert_eq!(info.otel_status, None);
}

#[test]
fn transport_info_of_error_response_and_failure() {
    let outcome = TransportOutcome::Response { status: 404, url: "https://e/x".to_string(), remote: None };
    let info = create_transport_span_info(&outcome, 1, &not_found());
    assert_eq!(info.error_type, Some("404".to_string()));
    assert_eq!(info.rpc_grpc_status_code, Some(5));
    assert_eq!(info.request_resend_count, None);
    assert_eq!(info.server_address, None);

    let failure = TransportOutcome::Failure { request_url: Some("https://e/y".to_string()) };
    let info = create_transport_span_info(&failure, 3, &not_found());
    assert_eq!(info.http_status_code, None);
    assert_eq!(info.url_full, Some("https://e/y".to_string()));
    assert_eq!(info.error_type, Some("404".to_string()));
    assert_eq!(info.request_resend_count, Some(2));
}
