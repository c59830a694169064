use gcloud_observability::auth::{
    after_publish, header_fields, headers_result, intercept_headers, next_refresh_step, AuthError,
    HeaderField, HeadersOutcome, InterceptError, RefreshOutcome, RefreshStep, ERROR_RETRY_DELAY_SECS,
    REFRESH_INTERVAL_SECS,
};

fn header(k: &str, v: &str) -> (String, Vec<u8>) {
    (k.to_string(), v.as_bytes().to_vec())
}

#[test]
fn header_field_from_text_value() {
    let f = HeaderField::from_header("authorization", b"Bearer test-token").expect("text");
    assert_eq!(f, HeaderField { key: "authorization".to_string(), value: "Bearer test-token".to_string() });
    let f = HeaderField::from_header("x", b"a\tb").expect("tab is allowed");
    assert_eq!(f.value, "a\tb");
}

#[test]
fn header_field_rejects_non_text_value() {
    let e = HeaderField::from_header("x", &[0x80u8, 0x41]).unwrap_err();
    assert_eq!(e, AuthError::ConvertHeaders("ToStrError { _priv: () }".to_string()));
    let e = HeaderField::from_header("x", b"line\nbreak").unwrap_err();
    assert_eq!(e, AuthError::ConvertHeaders("ToStrError { _priv: () }".to_string()));
}

#[test]
fn header_fields_in_order_or_first_error() {
    let ok = header_fields(&vec![header("authorization", "Bearer t"), header("x-goog-user-project", "p")]).unwrap();
    assert_eq!(ok.len(), 2);
    assert_eq!(ok[1].key, "x-goog-user-project");
    assert_eq!(ok[1].value, "p");
    let bad = header_fields(&vec![header("a", "ok"), ("b".to_string(), vec![0x7f])]);
    assert!(matches!(bad, Err(AuthError::ConvertHeaders(_))));
}

#[test]
fn headers_result_outcomes() {
    let r = headers_result(HeadersOutcome::Failed("boom".to_string()));
    assert_eq!(r, Err(AuthError::CreateHeaders("boom".to_string())));
    let r = headers_result(HeadersOutcome::TaskFailed("JoinError".to_string()));
    assert_eq!(r, Err(AuthError::CreateHeaders("Tokio spawn failed: JoinError".to_string())));
    let r = headers_result(HeadersOutcome::NotModified("Id(7)".to_string()));
    assert_eq!(
        r,
        Err(AuthError::CreateHeaders(
            "Tokio spawn failed: JoinError::Panic(Id(7), \"internal error: entered unreachable code: caching is not implemented yet\", ...)".to_string()
        ))
    );
    let r = headers_result(HeadersOutcome::New(vec![header("authorization", "Bearer t")]));
    assert_eq!(r.unwrap()[0].value, "Bearer t");
}

#[test]
fn auth_error_messages() {
    assert_eq!(AuthError::CreateHeaders("x".to_string()).message(), "Cannot create authentication headers: x");
    assert_eq!(
        AuthError::ConvertHeaders("y".to_string()).message(),
        "Cannot convert authentication headers to strings: y"
    );
    assert_eq!(AuthError::Initialize("z".to_string()).message(), "Cannot initialize credentials: z");
}

#[test]
fn test_interceptor_injects_headers() {
    let headers = vec![header("authorization", "Bearer test-token"), header("x-goog-user-project", "test-project")];
    let md = intercept_headers(Some(&headers)).expect("valid metadata");
    assert_eq!(md, headers);
}

#[test]
fn interceptor_without_headers_is_unauthenticated() {
    assert_eq!(
        intercept_headers(None),
        Err(InterceptError::Unauthenticated("GCP credentials not yet available".to_string()))
    );
}

#[test]
fn interceptor_rejects_bad_metadata() {
    let bin = vec![header("token-bin", "abc")];
    assert_eq!(
        intercept_headers(Some(&bin)),
        Err(InterceptError::Internal("invalid header name: invalid gRPC metadata key name".to_string()))
    );
    let bad_value = vec![header("authorization", "a"), ("x".to_string(), vec![b'a', 0x7f])];
    assert_eq!(
        intercept_headers(Some(&bad_value)),
        Err(InterceptError::Internal("invalid header value: failed to parse metadata value".to_string()))
    );
}

#[test]
fn refresh_schedule() {
    assert_eq!(next_refresh_step(&RefreshOutcome::New), RefreshStep::Publish);
    assert_eq!(next_refresh_step(&RefreshOutcome::NotModified), RefreshStep::Wait(REFRESH_INTERVAL_SECS));
    assert_eq!(next_refresh_step(&RefreshOutcome::Failed), RefreshStep::Wait(ERROR_RETRY_DELAY_SECS));
    assert_eq!(REFRESH_INTERVAL_SECS, 300);
    assert_eq!(ERROR_RETRY_DELAY_SECS, 10);
    assert_eq!(after_publish(true), RefreshStep::Wait(300));
    assert_eq!(after_publish(false), RefreshStep::Stop);
}

#[test]
fn refresh_run_stops_after_first_undelivered_headers() {
    let events = vec![
        (RefreshOutcome::Failed, true),
        (RefreshOutcome::New, true),
        (RefreshOutcome::NotModified, false),
        (RefreshOutcome::New, false),
        (RefreshOutcome::New, true),
    ];
    let mut steps = Vec::new();
    for (outcome, delivered) in &events {
        let mut step = next_refresh_step(outcome);
        if step == RefreshStep::Publish {
            steps.push(RefreshStep::Publish);
            step = after_publish(*delivered);
        }
        let stop = step == RefreshStep::Stop;
        steps.push(step);
        if stop {
            break;
        }
    }
    assert_eq!(
        steps,
        vec![
            RefreshStep::Wait(10),
            RefreshStep::Publish,
            RefreshStep::Wait(300),
            RefreshStep::Wait(300),
            RefreshStep::Publish,
            RefreshStep::Stop,
        ]
    );
}

#[test]
fn metadata_key_rules() {
    let name_error =
        Err(InterceptError::Internal("invalid header name: invalid gRPC metadata key name".to_string()));
    assert_eq!(intercept_headers(Some(&vec![header("", "v")])), name_error);
    assert_eq!(intercept_headers(Some(&vec![header("a b", "v")])), name_error);
    assert_eq!(intercept_headers(Some(&vec![header("Token-BIN", "v")])), name_error);
    let ok = vec![header("x-goog-api-client", "gl-rust"), header("bin", "v")];
    assert_eq!(intercept_headers(Some(&ok)), Ok(ok.clone()));
}
