use gcloud_observability::upload::{
    apply_preconditions, error_status_code, query_resumable_upload_request, parse_range, parse_range_end, query_upload_action,
    reported_status, start_resumable_upload_request, start_resumable_upload_request_v2,
    start_upload_action, status_from_header, QueryUploadAction, QueryValue, StartUploadAction,
    WriteObjectSpec, RESUME_INCOMPLETE,
};

fn spec(bucket: &str) -> WriteObjectSpec {
    WriteObjectSpec {
        bucket: bucket.to_string(),
        name: "test-object".to_string(),
        kms_key: String::new(),
        predefined_acl: String::new(),
        if_generation_match: None,
        if_generation_not_match: None,
        if_metageneration_match: None,
        if_metageneration_not_match: None,
    }
}

fn text(k: &str, v: &str) -> (String, QueryValue) {
    (k.to_string(), QueryValue::Text(v.to_string()))
}

#[test]
fn range_end_values() {
    assert_eq!(parse_range_end(None), Some(0));
    assert_eq!(parse_range_end(Some("bytes=0-999".as_bytes())), Some(999));
    assert_eq!(parse_range_end(Some("bytes=0-".as_bytes())), None);
    assert_eq!(parse_range_end(Some("bytes=1-999".as_bytes())), None);
    assert_eq!(parse_range_end(Some("bytes=0-abc".as_bytes())), None);
    assert_eq!(parse_range_end(Some("bytes=0-18446744073709551616".as_bytes())), None);
}

#[test]
fn range_is_inclusive() {
    assert_eq!(parse_range(Some("bytes=0-999".as_bytes())), Some(1000));
    assert_eq!(parse_range(Some("bytes=0-0".as_bytes())), Some(1));
    assert_eq!(parse_range(None), Some(0));
    assert_eq!(parse_range(Some("items=0-10".as_bytes())), None);
}

#[test]
fn status_header_values() {
    assert_eq!(status_from_header(Some("404".as_bytes()), 200), 404);
    assert_eq!(status_from_header(None, 200), 200);
    assert_eq!(status_from_header(Some("70000".as_bytes()), 200), 200);
    assert_eq!(status_from_header(Some("abc".as_bytes()), 7), 7);
    assert_eq!(reported_status(None), 200);
    assert_eq!(reported_status(Some("308".as_bytes())), 308);
    assert_eq!(error_status_code(None), 0);
    assert_eq!(error_status_code(Some("503".as_bytes())), 503);
}

#[test]
fn start_response_actions() {
    assert_eq!(start_upload_action(404, Some("https://x".as_bytes())), StartUploadAction::HttpError);
    assert_eq!(start_upload_action(200, None), StartUploadAction::MissingLocation);
    assert_eq!(start_upload_action(200, Some(&[0xffu8, 0x01][..])), StartUploadAction::InvalidLocation);
    assert_eq!(
        start_upload_action(200, Some("https://storage.googleapis.com/upload?id=1".as_bytes())),
        StartUploadAction::Location("https://storage.googleapis.com/upload?id=1".to_string())
    );
}

#[test]
fn query_response_actions() {
    assert_eq!(query_upload_action(RESUME_INCOMPLETE, Some("bytes=0-1023".as_bytes())), QueryUploadAction::Partial(1024));
    assert_eq!(query_upload_action(RESUME_INCOMPLETE, None), QueryUploadAction::Partial(0));
    assert_eq!(query_upload_action(RESUME_INCOMPLETE, Some("bytes=0-0".as_bytes())), QueryUploadAction::Partial(1));
    assert_eq!(query_upload_action(RESUME_INCOMPLETE, Some("garbage".as_bytes())), QueryUploadAction::HttpError);
    assert_eq!(query_upload_action(200, None), QueryUploadAction::Finalized);
    assert_eq!(query_upload_action(500, None), QueryUploadAction::HttpError);
}

#[test]
fn preconditions_in_order() {
    let mut s = spec("projects/_/buckets/b");
    s.if_generation_match = Some(7);
    s.if_metageneration_not_match = Some(-3);
    s.kms_key = "projects/p/keys/k".to_string();
    let mut q = vec![text("x", "y")];
    apply_preconditions(&s, &mut q);
    assert_eq!(
        q,
        vec![
            text("x", "y"),
            ("ifGenerationMatch".to_string(), QueryValue::Int(7)),
            ("ifMetagenerationNotMatch".to_string(), QueryValue::Int(-3)),
            text("kmsKeyName", "projects/p/keys/k"),
        ]
    );
}

#[test]
fn start_request_paths() {
    let s = spec("projects/_/buckets/test-bucket");
    let req = start_resumable_upload_request("https://storage.googleapis.com", &s).expect("request");
    assert_eq!(req.path, "https://storage.googleapis.com/upload/storage/v1/b/test-bucket/o");
    assert_eq!(req.query, vec![text("uploadType", "resumable"), text("name", "test-object")]);
    assert_eq!(req.headers, vec![("content-type".to_string(), "application/json".to_string())]);
    let req = start_resumable_upload_request_v2(&s).expect("request");
    assert_eq!(req.path, "upload/storage/v1/b/test-bucket/o");
}

#[test]
fn malformed_bucket_is_rejected() {
    let s = spec("test-bucket");
    match start_resumable_upload_request_v2(&s) {
        Err(m) => assert_eq!(m, "malformed bucket name, it must start with `projects/_/buckets/`: test-bucket"),
        Ok(_) => panic!("expected an error"),
    }
}

#[test]
fn query_request_asks_for_the_persisted_range() {
    let q = query_resumable_upload_request("https://storage.googleapis.com/upload?upload_id=abc");
    assert_eq!(q.method, "PUT");
    assert_eq!(q.url, "https://storage.googleapis.com/upload?upload_id=abc");
    assert_eq!(
        q.headers,
        vec![
            ("content-type".to_string(), "application/octet-stream".to_string()),
            ("Content-Range".to_string(), "bytes */*".to_string()),
            ("content-length".to_string(), "0".to_string()),
        ]
    );
}
