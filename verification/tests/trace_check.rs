use gcloud_observability::trace_check::{
    authorization_from, find_child_of_root, next_poll_step, poll_found, PollStep, TraceSpan, POLL_ATTEMPTS, POLL_DELAY_SECS, ROOT_SPAN_NAME,
};

fn span(name: Option<&str>, id: Option<&str>, parent: Option<&str>) -> TraceSpan {
    TraceSpan {
        display_name: name.map(String::from),
        span_id: id.map(String::from),
        parent_span_id: parent.map(String::from),
    }
}

#[test]
fn finds_child_of_root() {
    let spans = vec![
        span(Some("other"), Some("1"), None),
        span(Some(ROOT_SPAN_NAME), Some("2"), None),
        span(Some("client_request"), Some("3"), Some("2")),
    ];
    assert_eq!(find_child_of_root(&spans, ROOT_SPAN_NAME), Some("client_request".to_string()));
}

#[test]
fn unnamed_child_is_unknown() {
    let spans = vec![span(Some("root"), Some("9"), None), span(None, Some("10"), Some("9"))];
    assert_eq!(find_child_of_root(&spans, "root"), Some("unknown".to_string()));
}

#[test]
fn missing_root_or_child() {
    let spans = vec![span(Some("a"), Some("1"), None)];
    assert_eq!(find_child_of_root(&spans, "root"), None);
    let spans = vec![span(Some("root"), Some("1"), None), span(Some("x"), Some("2"), Some("7"))];
    assert_eq!(find_child_of_root(&spans, "root"), None);
}

#[test]
fn poll_schedule() {
    assert_eq!(next_poll_step(0, true), PollStep::Found);
    assert_eq!(next_poll_step(0, false), PollStep::RetryAfter(POLL_DELAY_SECS));
    assert_eq!(next_poll_step(POLL_ATTEMPTS - 1, false), PollStep::GiveUpAfter(5));
    assert_eq!(POLL_ATTEMPTS, 20);
}

#[test]
fn poll_reads_the_trace_body() {
    let body = r#"{"spans":[
        {"spanId":"2","displayName":{"value":"showcase_observability_root_span"}},
        {"spanId":"3","parentSpanId":"2","displayName":{"value":"client_request"}}
    ]}"#;
    assert_eq!(poll_found(Some(body), ROOT_SPAN_NAME), Ok(true));
    let no_child = r#"{"spans":[{"spanId":"2","displayName":{"value":"showcase_observability_root_span"}}]}"#;
    assert_eq!(poll_found(Some(no_child), ROOT_SPAN_NAME), Ok(false));
}

#[test]
fn poll_without_body_or_spans() {
    assert_eq!(poll_found(None, ROOT_SPAN_NAME), Ok(false));
    assert_eq!(poll_found(Some("{\"projectId\":\"p\"}"), ROOT_SPAN_NAME), Ok(false));
    assert_eq!(poll_found(Some("{\"spans\": 3}"), ROOT_SPAN_NAME), Ok(false));
    assert_eq!(poll_found(Some("not json"), ROOT_SPAN_NAME), Err(()));
}

#[test]
fn authorization_from_the_credentials_answer() {
    let headers = vec![
        ("x-goog-user-project".to_string(), b"p".to_vec()),
        ("authorization".to_string(), b"Bearer t".to_vec()),
        ("authorization".to_string(), b"Bearer second".to_vec()),
    ];
    assert_eq!(authorization_from(Ok(Some(headers))), Ok(b"Bearer t".to_vec()));
    assert_eq!(
        authorization_from(Ok(Some(vec![("x".to_string(), b"y".to_vec())]))),
        Err("No Authorization header".to_string())
    );
    assert_eq!(authorization_from(Ok(None)), Err("Unexpected NotModified".to_string()));
    assert_eq!(authorization_from(Err("no credentials".to_string())), Err("no credentials".to_string()));
}
