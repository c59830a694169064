//! The span of one HTTP request attempt, what a response records on it,
//! and the transport report built from an attempt's outcome.

use vstd::prelude::*;
use crate::attributes::{
    OTEL_NAME, OTEL_KIND, RPC_SYSTEM, HTTP_REQUEST_METHOD, SERVER_ADDRESS, SERVER_PORT, URL_FULL,
    URL_SCHEME, URL_TEMPLATE, URL_DOMAIN, GCP_CLIENT_SERVICE, GCP_CLIENT_VERSION, GCP_CLIENT_REPO,
    GCP_CLIENT_ARTIFACT, HTTP_REQUEST_RESEND_COUNT, OTEL_STATUS, HTTP_RESPONSE_STATUS_CODE,
    ERROR_TYPE, RPC_GRPC_STATUS_CODE, GRPC_STATUS, GCP_CLIENT_REPO_GOOGLEAPIS, OtelStatus,
    otel_status_text,
};
use crate::client_request::{entry_views, push_entry, push_str_entry};
use crate::client_tracing::info_attr;
use crate::http_span_info::http_span_name_of;
use crate::http_span_info::http_span_name;
use crate::options::{InstrumentationClientInfo, RequestOptions, TransportSpanInfo};
use crate::span::{
    AttributeValue, AttrView, SpanRecord, SpanView, span_of, str_attr, int_attr, recorded,
    lemma_created_span_lacks_unset_field, lemma_created_span_value, holds,
};
use crate::text::{to_owned, trim_start_char, trim_end_char, trim_leading, trim_trailing};
use crate::url::{ParsedUrl, UrlView, port_or_known_default, default_port};

verus! {

/// A status code in the success class (2xx), as
/// `http::StatusCode::is_success` decides it.
pub open spec fn status_success(code: u16) -> bool {
    200 <= code <= 299
}

/// Whether a status code is in the success class (2xx).
pub fn is_success(code: u16) -> (r: bool)
    ensures
        r == status_success(code),
{
    200 <= code && code <= 299
}

/// The server address an HTTP span reports: the URL's host without
/// enclosing brackets, or the empty string when the URL has no host.
pub open spec fn span_server_address(host: Option<Seq<char>>) -> Seq<char> {
    match host {
        Some(h) => trim_trailing(trim_leading(h, '['), ']'),
        None => ""@,
    }
}

/// The fields of the span of an attempt of `method` on `url`, in
/// declaration order, with the values it starts with.
pub open spec fn http_attempt_entries(
    method: Seq<char>,
    url: UrlView,
    template: Option<Seq<char>>,
    info: Option<&InstrumentationClientInfo>,
    prior_attempt_count: u32,
) -> Seq<(Seq<char>, Option<AttrView>)> {
    seq![
        (OTEL_NAME@, Some(str_attr(http_span_name(method, template)))),
        (OTEL_KIND@, Some(str_attr("Client"@))),
        (RPC_SYSTEM@, Some(str_attr("http"@))),
        (HTTP_REQUEST_METHOD@, Some(str_attr(method))),
        (SERVER_ADDRESS@, Some(str_attr(span_server_address(url.host)))),
        (SERVER_PORT@, Some(int_attr(match port_or_known_default(url) {
            Some(p) => p as int,
            None => 0,
        }))),
        (URL_FULL@, Some(str_attr(url.serialization))),
        (URL_SCHEME@, Some(str_attr(url.scheme))),
        (URL_TEMPLATE@, match template {
            Some(t) => Some(str_attr(t)),
            None => None,
        }),
        (URL_DOMAIN@, info_attr(info, |i: InstrumentationClientInfo| i.default_host)),
        (GCP_CLIENT_SERVICE@, info_attr(info, |i: InstrumentationClientInfo| i.service_name)),
        (GCP_CLIENT_VERSION@, info_attr(info, |i: InstrumentationClientInfo| i.client_version)),
        (GCP_CLIENT_REPO@, Some(str_attr(GCP_CLIENT_REPO_GOOGLEAPIS@))),
        (GCP_CLIENT_ARTIFACT@, info_attr(info, |i: InstrumentationClientInfo| i.client_artifact)),
        (HTTP_REQUEST_RESEND_COUNT@, if prior_attempt_count > 0 {
            Some(int_attr(prior_attempt_count as int))
        } else {
            None
        }),
        (OTEL_STATUS@, Some(str_attr("Unset"@))),
        (HTTP_RESPONSE_STATUS_CODE@, None),
        (ERROR_TYPE@, None),
        (RPC_GRPC_STATUS_CODE@, None),
        (GRPC_STATUS@, None),
    ]
}

fn static_value(s: &'static str) -> (r: Option<AttributeValue>)
    ensures
        crate::span::opt_attr(r) == Some(str_attr(s@)),
{
    Some(AttributeValue::Str(to_owned(s)))
}

/// Creates the `http_request` span of an attempt of `method` on `url`,
/// after `prior_attempt_count` earlier attempts.
pub fn create_http_attempt_span(
    method: &str,
    url: &ParsedUrl,
    options: &RequestOptions,
    instrumentation: Option<&InstrumentationClientInfo>,
    prior_attempt_count: u32,
) -> (r: SpanRecord)
    ensures
        r@ == span_of(
            "http_request"@,
            http_attempt_entries(method@, url@, options.template(), instrumentation, prior_attempt_count),
        ),
{
    let url_template = options.path_template();
    let otel_name = http_span_name_of(method, url_template);
    let address = match url.host_str() {
        Some(h) => {
            let t = trim_start_char(h, '[');
            trim_end_char(t.as_str(), ']')
        },
        None => to_owned(""),
    };
    let port: i64 = match url.port_or_known_default() {
        Some(p) => p as i64,
        None => 0,
    };
    let (svc, ver, art, host) = match instrumentation {
        Some(i) => (
            static_value(i.service_name),
            static_value(i.client_version),
            static_value(i.client_artifact),
            static_value(i.default_host),
        ),
        None => (None, None, None, None),
    };
    let mut e: Vec<(&'static str, Option<AttributeValue>)> = Vec::new();
    push_str_entry(&mut e, OTEL_NAME, otel_name.as_str());
    push_str_entry(&mut e, OTEL_KIND, "Client");
    push_str_entry(&mut e, RPC_SYSTEM, "http");
    push_str_entry(&mut e, HTTP_REQUEST_METHOD, method);
    push_str_entry(&mut e, SERVER_ADDRESS, address.as_str());
    push_entry(&mut e, SERVER_PORT, Some(AttributeValue::Int(port)));
    push_str_entry(&mut e, URL_FULL, url.as_str());
    push_str_entry(&mut e, URL_SCHEME, url.scheme());
    push_entry(
        &mut e,
        URL_TEMPLATE,
        match url_template {
            Some(t) => Some(AttributeValue::Str(to_owned(t))),
            None => None,
        },
    );
    push_entry(&mut e, URL_DOMAIN, host);
    push_entry(&mut e, GCP_CLIENT_SERVICE, svc);
    push_entry(&mut e, GCP_CLIENT_VERSION, ver);
    push_str_entry(&mut e, GCP_CLIENT_REPO, GCP_CLIENT_REPO_GOOGLEAPIS);
    push_entry(&mut e, GCP_CLIENT_ARTIFACT, art);
    push_entry(
        &mut e,
        HTTP_REQUEST_RESEND_COUNT,
        if prior_attempt_count > 0 {
            Some(AttributeValue::Int(prior_attempt_count as i64))
        } else {
            None
        },
    );
    push_str_entry(&mut e, OTEL_STATUS, OtelStatus::Unset.as_str());
    push_entry(&mut e, HTTP_RESPONSE_STATUS_CODE, None);
    push_entry(&mut e, ERROR_TYPE, None);
    push_entry(&mut e, RPC_GRPC_STATUS_CODE, None);
    push_entry(&mut e, GRPC_STATUS, None);
    assert(entry_views(e@) =~= http_attempt_entries(
        method@,
        url@,
        options.template(),
        instrumentation,
        prior_attempt_count,
    ));
    SpanRecord::new(to_owned("http_request"), e)
}

/// How the transport's error type classifies a failed attempt: its error
/// type text, its gRPC status code and the name of that code.
pub struct ErrorClassification {
    pub error_type: String,
    pub grpc_code: i32,
    pub grpc_status: String,
}

/// The outcome of an HTTP attempt: a response with its status code, or a
/// failure before any response arrived.
pub enum HttpOutcome {
    Response(u16),
    Failure,
}

/// The span `s` after recording an error with `class`: its error type,
/// gRPC code and gRPC status name.
pub open spec fn error_recorded(s: SpanView, class: ErrorClassification) -> SpanView {
    recorded(
        recorded(
            recorded(s, ERROR_TYPE@, str_attr(class.error_type@)),
            RPC_GRPC_STATUS_CODE@,
            int_attr(class.grpc_code as int),
        ),
        GRPC_STATUS@,
        str_attr(class.grpc_status@),
    )
}

/// The span `s` after the outcome of its attempt is recorded: a response
/// records its status code, and a successful one the `Ok` status; an
/// unsuccessful response or a failure records the `Error` status and the
/// error's classification.
pub open spec fn response_recorded(s: SpanView, outcome: HttpOutcome, class: ErrorClassification) -> SpanView {
    match outcome {
        HttpOutcome::Response(code) => {
            let s1 = recorded(s, HTTP_RESPONSE_STATUS_CODE@, int_attr(code as int));
            if status_success(code) {
                recorded(s1, OTEL_STATUS@, str_attr(otel_status_text(OtelStatus::Success)))
            } else {
                error_recorded(
                    recorded(s1, OTEL_STATUS@, str_attr(otel_status_text(OtelStatus::Error))),
                    class,
                )
            }
        },
        HttpOutcome::Failure => error_recorded(
            recorded(s, OTEL_STATUS@, str_attr(otel_status_text(OtelStatus::Error))),
            class,
        ),
    }
}

fn record_error(span: &mut SpanRecord, class: &ErrorClassification)
    ensures
        final(span)@ == error_recorded(old(span)@, *class),
{
    span.record(ERROR_TYPE, AttributeValue::Str(class.error_type.clone()));
    span.record(RPC_GRPC_STATUS_CODE, AttributeValue::Int(class.grpc_code as i64));
    span.record(GRPC_STATUS, AttributeValue::Str(class.grpc_status.clone()));
}

/// Records the outcome of the attempt on its span; `class` is how the
/// transport's error type classifies the outcome when it is an error.
pub fn record_http_response_attributes(
    span: &mut SpanRecord,
    outcome: &HttpOutcome,
    class: &ErrorClassification,
)
    ensures
        final(span)@ == response_recorded(old(span)@, *outcome, *class),
{
    match outcome {
        HttpOutcome::Response(code) => {
            span.record(HTTP_RESPONSE_STATUS_CODE, AttributeValue::Int(*code as i64));
            if is_success(*code) {
                span.record(OTEL_STATUS, AttributeValue::Str(to_owned(OtelStatus::Success.as_str())));
            } else {
                span.record(OTEL_STATUS, AttributeValue::Str(to_owned(OtelStatus::Error.as_str())));
                record_error(span, class);
            }
        },
        HttpOutcome::Failure => {
            span.record(OTEL_STATUS, AttributeValue::Str(to_owned(OtelStatus::Error.as_str())));
            record_error(span, class);
        },
    }
}

/// The field names of an attempt span, in declaration order.
spec fn attempt_keys() -> Seq<Seq<char>> {
    seq![
        OTEL_NAME@,
        OTEL_KIND@,
        RPC_SYSTEM@,
        HTTP_REQUEST_METHOD@,
        SERVER_ADDRESS@,
        SERVER_PORT@,
        URL_FULL@,
        URL_SCHEME@,
        URL_TEMPLATE@,
        URL_DOMAIN@,
        GCP_CLIENT_SERVICE@,
        GCP_CLIENT_VERSION@,
        GCP_CLIENT_REPO@,
        GCP_CLIENT_ARTIFACT@,
        HTTP_REQUEST_RESEND_COUNT@,
        OTEL_STATUS@,
        HTTP_RESPONSE_STATUS_CODE@,
        ERROR_TYPE@,
        RPC_GRPC_STATUS_CODE@,
        GRPC_STATUS@,
    ]
}

proof fn lemma_attempt_keys(
    method: Seq<char>,
    url: UrlView,
    template: Option<Seq<char>>,
    info: Option<&InstrumentationClientInfo>,
    prior_attempt_count: u32,
)
    ensures
        http_attempt_entries(method, url, template, info, prior_attempt_count).len() == 20,
        forall|j: int|
            0 <= j < 20 ==> (#[trigger] http_attempt_entries(method, url, template, info, prior_attempt_count)[j]).0
                == attempt_keys()[j],
        forall|i: int, j: int| 0 <= i < j < 20 ==> attempt_keys()[i] != attempt_keys()[j],
{
    reveal_strlit("otel.name");
    reveal_strlit("otel.kind");
    reveal_strlit("rpc.system");
    reveal_strlit("http.request.method");
    reveal_strlit("server.address");
    reveal_strlit("server.port");
    reveal_strlit("url.full");
    reveal_strlit("url.scheme");
    reveal_strlit("url.template");
    reveal_strlit("url.domain");
    reveal_strlit("gcp.client.service");
    reveal_strlit("gcp.client.version");
    reveal_strlit("gcp.client.repo");
    reveal_strlit("gcp.client.artifact");
    reveal_strlit("http.request.resend_count");
    reveal_strlit("otel.status");
    reveal_strlit("http.response.status_code");
    reveal_strlit("error.type");
    reveal_strlit("rpc.grpc.status_code");
    reveal_strlit("grpc.status");
    let e = http_attempt_entries(method, url, template, info, prior_attempt_count);
    assert(e.map_values(|x: (Seq<char>, Option<AttrView>)| x.0) =~= attempt_keys());
    assert forall|j: int| 0 <= j < 20 implies (#[trigger] e[j]).0 == attempt_keys()[j] by {
        assert(e.map_values(|x: (Seq<char>, Option<AttrView>)| x.0)[j] == e[j].0);
    }
    let ks = attempt_keys();
    assert(ks[0] == OTEL_NAME@);
    assert(ks[1] == OTEL_KIND@);
    assert(ks[2] == RPC_SYSTEM@);
    assert(ks[3] == HTTP_REQUEST_METHOD@);
    assert(ks[4] == SERVER_ADDRESS@);
    assert(ks[5] == SERVER_PORT@);
    assert(ks[6] == URL_FULL@);
    assert(ks[7] == URL_SCHEME@);
    assert(ks[8] == URL_TEMPLATE@);
    assert(ks[9] == URL_DOMAIN@);
    assert(ks[10] == GCP_CLIENT_SERVICE@);
    assert(ks[11] == GCP_CLIENT_VERSION@);
    assert(ks[12] == GCP_CLIENT_REPO@);
    assert(ks[13] == GCP_CLIENT_ARTIFACT@);
    assert(ks[14] == HTTP_REQUEST_RESEND_COUNT@);
    assert(ks[15] == OTEL_STATUS@);
    assert(ks[16] == HTTP_RESPONSE_STATUS_CODE@);
    assert(ks[17] == ERROR_TYPE@);
    assert(ks[18] == RPC_GRPC_STATUS_CODE@);
    assert(ks[19] == GRPC_STATUS@);
    assert forall|i: int, j: int| 0 <= i < j < 20 implies ks[i] != ks[j] by {
        if i == 0 && j == 1 {
            assert(OTEL_NAME@[5] != OTEL_KIND@[5]);
        } else if i == 0 && j == 2 {
            assert(OTEL_NAME@.len() != RPC_SYSTEM@.len());
        } else if i == 0 && j == 3 {
            assert(OTEL_NAME@.len() != HTTP_REQUEST_METHOD@.len());
        } else if i == 0 && j == 4 {
            assert(OTEL_NAME@.len() != SERVER_ADDRESS@.len());
        } else if i == 0 && j == 5 {
            assert(OTEL_NAME@.len() != SERVER_PORT@.len());
        } else if i == 0 && j == 6 {
            assert(OTEL_NAME@.len() != URL_FULL@.len());
        } else if i == 0 && j == 7 {
            assert(OTEL_NAME@.len() != URL_SCHEME@.len());
        } else if i == 0 && j == 8 {
            assert(OTEL_NAME@.len() != URL_TEMPLATE@.len());
        } else if i == 0 && j == 9 {
            assert(OTEL_NAME@.len() != URL_DOMAIN@.len());
        } else if i == 0 && j == 10 {
            assert(OTEL_NAME@.len() != GCP_CLIENT_SERVICE@.len());
        } else if i == 0 && j == 11 {
            assert(OTEL_NAME@.len() != GCP_CLIENT_VERSION@.len());
        } else if i == 0 && j == 12 {
            assert(OTEL_NAME@.len() != GCP_CLIENT_REPO@.len());
        } else if i == 0 && j == 13 {
            assert(OTEL_NAME@.len() != GCP_CLIENT_ARTIFACT@.len());
        } else if i == 0 && j == 14 {
            assert(OTEL_NAME@.len() != HTTP_REQUEST_RESEND_COUNT@.len());
        } else if i == 0 && j == 15 {
            assert(OTEL_NAME@.len() != OTEL_STATUS@.len());
        } else if i == 0 && j == 16 {
            assert(OTEL_NAME@.len() != HTTP_RESPONSE_STATUS_CODE@.len());
        } else if i == 0 && j == 17 {
            assert(OTEL_NAME@.len() != ERROR_TYPE@.len());
        } else if i == 0 && j == 18 {
            assert(OTEL_NAME@.len() != RPC_GRPC_STATUS_CODE@.len());
        } else if i == 0 && j == 19 {
            assert(OTEL_NAME@.len() != GRPC_STATUS@.len());
        } else if i == 1 && j == 2 {
            assert(OTEL_KIND@.len() != RPC_SYSTEM@.len());
        } else if i == 1 && j == 3 {
            assert(OTEL_KIND@.len() != HTTP_REQUEST_METHOD@.len());
        } else if i == 1 && j == 4 {
            assert(OTEL_KIND@.len() != SERVER_ADDRESS@.len());
        } else if i == 1 && j == 5 {
            assert(OTEL_KIND@.len() != SERVER_PORT@.len());
        } else if i == 1 && j == 6 {
            assert(OTEL_KIND@.len() != URL_FULL@.len());
        } else if i == 1 && j == 7 {
            assert(OTEL_KIND@.len() != URL_SCHEME@.len());
        } else if i == 1 && j == 8 {
            assert(OTEL_KIND@.len() != URL_TEMPLATE@.len());
        } else if i == 1 && j == 9 {
            assert(OTEL_KIND@.len() != URL_DOMAIN@.len());
        } else if i == 1 && j == 10 {
            assert(OTEL_KIND@.len() != GCP_CLIENT_SERVICE@.len());
        } else if i == 1 && j == 11 {
            assert(OTEL_KIND@.len() != GCP_CLIENT_VERSION@.len());
        } else if i == 1 && j == 12 {
            assert(OTEL_KIND@.len() != GCP_CLIENT_REPO@.len());
        } else if i == 1 && j == 13 {
            assert(OTEL_KIND@.len() != GCP_CLIENT_ARTIFACT@.len());
        } else if i == 1 && j == 14 {
            assert(OTEL_KIND@.len() != HTTP_REQUEST_RESEND_COUNT@.len());
        } else if i == 1 && j == 15 {
            assert(OTEL_KIND@.len() != OTEL_STATUS@.len());
        } else if i == 1 && j == 16 {
            assert(OTEL_KIND@.len() != HTTP_RESPONSE_STATUS_CODE@.len());
        } else if i == 1 && j == 17 {
            assert(OTEL_KIND@.len() != ERROR_TYPE@.len());
        } else if i == 1 && j == 18 {
            assert(OTEL_KIND@.len() != RPC_GRPC_STATUS_CODE@.len());
        } else if i == 1 && j == 19 {
            assert(OTEL_KIND@.len() != GRPC_STATUS@.len());
        } else if i == 2 && j == 3 {
            assert(RPC_SYSTEM@.len() != HTTP_REQUEST_METHOD@.len());
        } else if i == 2 && j == 4 {
            assert(RPC_SYSTEM@.len() != SERVER_ADDRESS@.len());
        } else if i == 2 && j == 5 {
            assert(RPC_SYSTEM@.len() != SERVER_PORT@.len());
        } else if i == 2 && j == 6 {
            assert(RPC_SYSTEM@.len() != URL_FULL@.len());
        } else if i == 2 && j == 7 {
            assert(RPC_SYSTEM@[0] != URL_SCHEME@[0]);
        } else if i == 2 && j == 8 {
            assert(RPC_SYSTEM@.len() != URL_TEMPLATE@.len());
        } else if i == 2 && j == 9 {
            assert(RPC_SYSTEM@[0] != URL_DOMAIN@[0]);
        } else if i == 2 && j == 10 {
            assert(RPC_SYSTEM@.len() != GCP_CLIENT_SERVICE@.len());
        } else if i == 2 && j == 11 {
            assert(RPC_SYSTEM@.len() != GCP_CLIENT_VERSION@.len());
        } else if i == 2 && j == 12 {
            assert(RPC_SYSTEM@.len() != GCP_CLIENT_REPO@.len());
        } else if i == 2 && j == 13 {
            assert(RPC_SYSTEM@.len() != GCP_CLIENT_ARTIFACT@.len());
        } else if i == 2 && j == 14 {
            assert(RPC_SYSTEM@.len() != HTTP_REQUEST_RESEND_COUNT@.len());
        } else if i == 2 && j == 15 {
            assert(RPC_SYSTEM@.len() != OTEL_STATUS@.len());
        } else if i == 2 && j == 16 {
            assert(RPC_SYSTEM@.len() != HTTP_RESPONSE_STATUS_CODE@.len());
        } else if i == 2 && j == 17 {
            assert(RPC_SYSTEM@[0] != ERROR_TYPE@[0]);
        } else if i == 2 && j == 18 {
            assert(RPC_SYSTEM@.len() != RPC_GRPC_STATUS_CODE@.len());
        } else if i == 2 && j == 19 {
            assert(RPC_SYSTEM@.len() != GRPC_STATUS@.len());
        } else if i == 3 && j == 4 {
            assert(HTTP_REQUEST_METHOD@.len() != SERVER_ADDRESS@.len());
        } else if i == 3 && j == 5 {
            assert(HTTP_REQUEST_METHOD@.len() != SERVER_PORT@.len());
        } else if i == 3 && j == 6 {
            assert(HTTP_REQUEST_METHOD@.len() != URL_FULL@.len());
        } else if i == 3 && j == 7 {
            assert(HTTP_REQUEST_METHOD@.len() != URL_SCHEME@.len());
        } else if i == 3 && j == 8 {
            assert(HTTP_REQUEST_METHOD@.len() != URL_TEMPLATE@.len());
        } else if i == 3 && j == 9 {
            assert(HTTP_REQUEST_METHOD@.len() != URL_DOMAIN@.len());
        } else if i == 3 && j == 10 {
            assert(HTTP_REQUEST_METHOD@.len() != GCP_CLIENT_SERVICE@.len());
        } else if i == 3 && j == 11 {
            assert(HTTP_REQUEST_METHOD@.len() != GCP_CLIENT_VERSION@.len());
        } else if i == 3 && j == 12 {
            assert(HTTP_REQUEST_METHOD@.len() != GCP_CLIENT_REPO@.len());
        } else if i == 3 && j == 13 {
            assert(HTTP_REQUEST_METHOD@[0] != GCP_CLIENT_ARTIFACT@[0]);
        } else if i == 3 && j == 14 {
            assert(HTTP_REQUEST_METHOD@.len() != HTTP_REQUEST_RESEND_COUNT@.len());
        } else if i == 3 && j == 15 {
            assert(HTTP_REQUEST_METHOD@.len() != OTEL_STATUS@.len());
        } else if i == 3 && j == 16 {
            assert(HTTP_REQUEST_METHOD@.len() != HTTP_RESPONSE_STATUS_CODE@.len());
        } else if i == 3 && j == 17 {
            assert(HTTP_REQUEST_METHOD@.len() != ERROR_TYPE@.len());
        } else if i == 3 && j == 18 {
            assert(HTTP_REQUEST_METHOD@.len() != RPC_GRPC_STATUS_CODE@.len());
        } else if i == 3 && j == 19 {
            assert(HTTP_REQUEST_METHOD@.len() != GRPC_STATUS@.len());
        } else if i == 4 && j == 5 {
            assert(SERVER_ADDRESS@.len() != SERVER_PORT@.len());
        } else if i == 4 && j == 6 {
            assert(SERVER_ADDRESS@.len() != URL_FULL@.len());
        } else if i == 4 && j == 7 {
            assert(SERVER_ADDRESS@.len() != URL_SCHEME@.len());
        } else if i == 4 && j == 8 {
            assert(SERVER_ADDRESS@.len() != URL_TEMPLATE@.len());
        } else if i == 4 && j == 9 {
            assert(SERVER_ADDRESS@.len() != URL_DOMAIN@.len());
        } else if i == 4 && j == 10 {
            assert(SERVER_ADDRESS@.len() != GCP_CLIENT_SERVICE@.len());
        } else if i == 4 && j == 11 {
            assert(SERVER_ADDRESS@.len() != GCP_CLIENT_VERSION@.len());
        } else if i == 4 && j == 12 {
            assert(SERVER_ADDRESS@.len() != GCP_CLIENT_REPO@.len());
        } else if i == 4 && j == 13 {
            assert(SERVER_ADDRESS@.len() != GCP_CLIENT_ARTIFACT@.len());
        } else if i == 4 && j == 14 {
            assert(SERVER_ADDRESS@.len() != HTTP_REQUEST_RESEND_COUNT@.len());
        } else if i == 4 && j == 15 {
            assert(SERVER_ADDRESS@.len() != OTEL_STATUS@.len());
        } else if i == 4 && j == 16 {
            assert(SERVER_ADDRESS@.len() != HTTP_RESPONSE_STATUS_CODE@.len());
        } else if i == 4 && j == 17 {
            assert(SERVER_ADDRESS@.len() != ERROR_TYPE@.len());
        } else if i == 4 && j == 18 {
            assert(SERVER_ADDRESS@.len() != RPC_GRPC_STATUS_CODE@.len());
        } else if i == 4 && j == 19 {
            assert(SERVER_ADDRESS@.len() != GRPC_STATUS@.len());
        } else if i == 5 && j == 6 {
            assert(SERVER_PORT@.len() != URL_FULL@.len());
        } else if i == 5 && j == 7 {
            assert(SERVER_PORT@.len() != URL_SCHEME@.len());
        } else if i == 5 && j == 8 {
            assert(SERVER_PORT@.len() != URL_TEMPLATE@.len());
        } else if i == 5 && j == 9 {
            assert(SERVER_PORT@.len() != URL_DOMAIN@.len());
        } else if i == 5 && j == 10 {
            assert(SERVER_PORT@.len() != GCP_CLIENT_SERVICE@.len());
        } else if i == 5 && j == 11 {
            assert(SERVER_PORT@.len() != GCP_CLIENT_VERSION@.len());
        } else if i == 5 && j == 12 {
            assert(SERVER_PORT@.len() != GCP_CLIENT_REPO@.len());
        } else if i == 5 && j == 13 {
            assert(SERVER_PORT@.len() != GCP_CLIENT_ARTIFACT@.len());
        } else if i == 5 && j == 14 {
            assert(SERVER_PORT@.len() != HTTP_REQUEST_RESEND_COUNT@.len());
        } else if i == 5 && j == 15 {
            assert(SERVER_PORT@[0] != OTEL_STATUS@[0]);
        } else if i == 5 && j == 16 {
            assert(SERVER_PORT@.len() != HTTP_RESPONSE_STATUS_CODE@.len());
        } else if i == 5 && j == 17 {
            assert(SERVER_PORT@.len() != ERROR_TYPE@.len());
        } else if i == 5 && j == 18 {
            assert(SERVER_PORT@.len() != RPC_GRPC_STATUS_CODE@.len());
        } else if i == 5 && j == 19 {
            assert(SERVER_PORT@[0] != GRPC_STATUS@[0]);
        } else if i == 6 && j == 7 {
            assert(URL_FULL@.len() != URL_SCHEME@.len());
        } else if i == 6 && j == 8 {
            assert(URL_FULL@.len() != URL_TEMPLATE@.len());
        } else if i == 6 && j == 9 {
            assert(URL_FULL@.len() != URL_DOMAIN@.len());
        } else if i == 6 && j == 10 {
            assert(URL_FULL@.len() != GCP_CLIENT_SERVICE@.len());
        } else if i == 6 && j == 11 {
            assert(URL_FULL@.len() != GCP_CLIENT_VERSION@.len());
        } else if i == 6 && j == 12 {
            assert(URL_FULL@.len() != GCP_CLIENT_REPO@.len());
        } else if i == 6 && j == 13 {
            assert(URL_FULL@.len() != GCP_CLIENT_ARTIFACT@.len());
        } else if i == 6 && j == 14 {
            assert(URL_FULL@.len() != HTTP_REQUEST_RESEND_COUNT@.len());
        } else if i == 6 && j == 15 {
            assert(URL_FULL@.len() != OTEL_STATUS@.len());
        } else if i == 6 && j == 16 {
            assert(URL_FULL@.len() != HTTP_RESPONSE_STATUS_CODE@.len());
        } else if i == 6 && j == 17 {
            assert(URL_FULL@.len() != ERROR_TYPE@.len());
        } else if i == 6 && j == 18 {
            assert(URL_FULL@.len() != RPC_GRPC_STATUS_CODE@.len());
        } else if i == 6 && j == 19 {
            assert(URL_FULL@.len() != GRPC_STATUS@.len());
        } else if i == 7 && j == 8 {
            assert(URL_SCHEME@.len() != URL_TEMPLATE@.len());
        } else if i == 7 && j == 9 {
            assert(URL_SCHEME@[4] != URL_DOMAIN@[4]);
        } else if i == 7 && j == 10 {
            assert(URL_SCHEME@.len() != GCP_CLIENT_SERVICE@.len());
        } else if i == 7 && j == 11 {
            assert(URL_SCHEME@.len() != GCP_CLIENT_VERSION@.len());
        } else if i == 7 && j == 12 {
            assert(URL_SCHEME@.len() != GCP_CLIENT_REPO@.len());
        } else if i == 7 && j == 13 {
            assert(URL_SCHEME@.len() != GCP_CLIENT_ARTIFACT@.len());
        } else if i == 7 && j == 14 {
            assert(URL_SCHEME@.len() != HTTP_REQUEST_RESEND_COUNT@.len());
        } else if i == 7 && j == 15 {
            assert(URL_SCHEME@.len() != OTEL_STATUS@.len());
        } else if i == 7 && j == 16 {
            assert(URL_SCHEME@.len() != HTTP_RESPONSE_STATUS_CODE@.len());
        } else if i == 7 && j == 17 {
            assert(URL_SCHEME@[0] != ERROR_TYPE@[0]);
        } else if i == 7 && j == 18 {
            assert(URL_SCHEME@.len() != RPC_GRPC_STATUS_CODE@.len());
        } else if i == 7 && j == 19 {
            assert(URL_SCHEME@.len() != GRPC_STATUS@.len());
        } else if i == 8 && j == 9 {
            assert(URL_TEMPLATE@.len() != URL_DOMAIN@.len());
        } else if i == 8 && j == 10 {
            assert(URL_TEMPLATE@.len() != GCP_CLIENT_SERVICE@.len());
        } else if i == 8 && j == 11 {
            assert(URL_TEMPLATE@.len() != GCP_CLIENT_VERSION@.len());
        } else if i == 8 && j == 12 {
            assert(URL_TEMPLATE@.len() != GCP_CLIENT_REPO@.len());
        } else if i == 8 && j == 13 {
            assert(URL_TEMPLATE@.len() != GCP_CLIENT_ARTIFACT@.len());
        } else if i == 8 && j == 14 {
            assert(URL_TEMPLATE@.len() != HTTP_REQUEST_RESEND_COUNT@.len());
        } else if i == 8 && j == 15 {
            assert(URL_TEMPLATE@.len() != OTEL_STATUS@.len());
        } else if i == 8 && j == 16 {
            assert(URL_TEMPLATE@.len() != HTTP_RESPONSE_STATUS_CODE@.len());
        } else if i == 8 && j == 17 {
            assert(URL_TEMPLATE@.len() != ERROR_TYPE@.len());
        } else if i == 8 && j == 18 {
            assert(URL_TEMPLATE@.len() != RPC_GRPC_STATUS_CODE@.len());
        } else if i == 8 && j == 19 {
            assert(URL_TEMPLATE@.len() != GRPC_STATUS@.len());
        } else if i == 9 && j == 10 {
            assert(URL_DOMAIN@.len() != GCP_CLIENT_SERVICE@.len());
        } else if i == 9 && j == 11 {
            assert(URL_DOMAIN@.len() != GCP_CLIENT_VERSION@.len());
        } else if i == 9 && j == 12 {
            assert(URL_DOMAIN@.len() != GCP_CLIENT_REPO@.len());
        } else if i == 9 && j == 13 {
            assert(URL_DOMAIN@.len() != GCP_CLIENT_ARTIFACT@.len());
        } else if i == 9 && j == 14 {
            assert(URL_DOMAIN@.len() != HTTP_REQUEST_RESEND_COUNT@.len());
        } else if i == 9 && j == 15 {
            assert(URL_DOMAIN@.len() != OTEL_STATUS@.len());
        } else if i == 9 && j == 16 {
            assert(URL_DOMAIN@.len() != HTTP_RESPONSE_STATUS_CODE@.len());
        } else if i == 9 && j == 17 {
            assert(URL_DOMAIN@[0] != ERROR_TYPE@[0]);
        } else if i == 9 && j == 18 {
            assert(URL_DOMAIN@.len() != RPC_GRPC_STATUS_CODE@.len());
        } else if i == 9 && j == 19 {
            assert(URL_DOMAIN@.len() != GRPC_STATUS@.len());
        } else if i == 10 && j == 11 {
            assert(GCP_CLIENT_SERVICE@[11] != GCP_CLIENT_VERSION@[11]);
        } else if i == 10 && j == 12 {
            assert(GCP_CLIENT_SERVICE@.len() != GCP_CLIENT_REPO@.len());
        } else if i == 10 && j == 13 {
            assert(GCP_CLIENT_SERVICE@.len() != GCP_CLIENT_ARTIFACT@.len());
        } else if i == 10 && j == 14 {
            assert(GCP_CLIENT_SERVICE@.len() != HTTP_REQUEST_RESEND_COUNT@.len());
        } else if i == 10 && j == 15 {
            assert(GCP_CLIENT_SERVICE@.len() != OTEL_STATUS@.len());
        } else if i == 10 && j == 16 {
            assert(GCP_CLIENT_SERVICE@.len() != HTTP_RESPONSE_STATUS_CODE@.len());
        } else if i == 10 && j == 17 {
            assert(GCP_CLIENT_SERVICE@.len() != ERROR_TYPE@.len());
        } else if i == 10 && j == 18 {
            assert(GCP_CLIENT_SERVICE@.len() != RPC_GRPC_STATUS_CODE@.len());
        } else if i == 10 && j == 19 {
            assert(GCP_CLIENT_SERVICE@.len() != GRPC_STATUS@.len());
        } else if i == 11 && j == 12 {
            assert(GCP_CLIENT_VERSION@.len() != GCP_CLIENT_REPO@.len());
        } else if i == 11 && j == 13 {
            assert(GCP_CLIENT_VERSION@.len() != GCP_CLIENT_ARTIFACT@.len());
        } else if i == 11 && j == 14 {
            assert(GCP_CLIENT_VERSION@.len() != HTTP_REQUEST_RESEND_COUNT@.len());
        } else if i == 11 && j == 15 {
            assert(GCP_CLIENT_VERSION@.len() != OTEL_STATUS@.len());
        } else if i == 11 && j == 16 {
            assert(GCP_CLIENT_VERSION@.len() != HTTP_RESPONSE_STATUS_CODE@.len());
        } else if i == 11 && j == 17 {
            assert(GCP_CLIENT_VERSION@.len() != ERROR_TYPE@.len());
        } else if i == 11 && j == 18 {
            assert(GCP_CLIENT_VERSION@.len() != RPC_GRPC_STATUS_CODE@.len());
        } else if i == 11 && j == 19 {
            assert(GCP_CLIENT_VERSION@.len() != GRPC_STATUS@.len());
        } else if i == 12 && j == 13 {
            assert(GCP_CLIENT_REPO@.len() != GCP_CLIENT_ARTIFACT@.len());
        } else if i == 12 && j == 14 {
            assert(GCP_CLIENT_REPO@.len() != HTTP_REQUEST_RESEND_COUNT@.len());
        } else if i == 12 && j == 15 {
            assert(GCP_CLIENT_REPO@.len() != OTEL_STATUS@.len());
        } else if i == 12 && j == 16 {
            assert(GCP_CLIENT_REPO@.len() != HTTP_RESPONSE_STATUS_CODE@.len());
        } else if i == 12 && j == 17 {
            assert(GCP_CLIENT_REPO@.len() != ERROR_TYPE@.len());
        } else if i == 12 && j == 18 {
            assert(GCP_CLIENT_REPO@.len() != RPC_GRPC_STATUS_CODE@.len());
        } else if i == 12 && j == 19 {
            assert(GCP_CLIENT_REPO@.len() != GRPC_STATUS@.len());
        } else if i == 13 && j == 14 {
            assert(GCP_CLIENT_ARTIFACT@.len() != HTTP_REQUEST_RESEND_COUNT@.len());
        } else if i == 13 && j == 15 {
            assert(GCP_CLIENT_ARTIFACT@.len() != OTEL_STATUS@.len());
        } else if i == 13 && j == 16 {
            assert(GCP_CLIENT_ARTIFACT@.len() != HTTP_RESPONSE_STATUS_CODE@.len());
        } else if i == 13 && j == 17 {
            assert(GCP_CLIENT_ARTIFACT@.len() != ERROR_TYPE@.len());
        } else if i == 13 && j == 18 {
            assert(GCP_CLIENT_ARTIFACT@.len() != RPC_GRPC_STATUS_CODE@.len());
        } else if i == 13 && j == 19 {
            assert(GCP_CLIENT_ARTIFACT@.len() != GRPC_STATUS@.len());
        } else if i == 14 && j == 15 {
            assert(HTTP_REQUEST_RESEND_COUNT@.len() != OTEL_STATUS@.len());
        } else if i == 14 && j == 16 {
            assert(HTTP_REQUEST_RESEND_COUNT@[7] != HTTP_RESPONSE_STATUS_CODE@[7]);
        } else if i == 14 && j == 17 {
            assert(HTTP_REQUEST_RESEND_COUNT@.len() != ERROR_TYPE@.len());
        } else if i == 14 && j == 18 {
            assert(HTTP_REQUEST_RESEND_COUNT@.len() != RPC_GRPC_STATUS_CODE@.len());
        } else if i == 14 && j == 19 {
            assert(HTTP_REQUEST_RESEND_COUNT@.len() != GRPC_STATUS@.len());
        } else if i == 15 && j == 16 {
            assert(OTEL_STATUS@.len() != HTTP_RESPONSE_STATUS_CODE@.len());
        } else if i == 15 && j == 17 {
            assert(OTEL_STATUS@.len() != ERROR_TYPE@.len());
        } else if i == 15 && j == 18 {
            assert(OTEL_STATUS@.len() != RPC_GRPC_STATUS_CODE@.len());
        } else if i == 15 && j == 19 {
            assert(OTEL_STATUS@[0] != GRPC_STATUS@[0]);
        } else if i == 16 && j == 17 {
            assert(HTTP_RESPONSE_STATUS_CODE@.len() != ERROR_TYPE@.len());
        } else if i == 16 && j == 18 {
            assert(HTTP_RESPONSE_STATUS_CODE@.len() != RPC_GRPC_STATUS_CODE@.len());
        } else if i == 16 && j == 19 {
            assert(HTTP_RESPONSE_STATUS_CODE@.len() != GRPC_STATUS@.len());
        } else if i == 17 && j == 18 {
            assert(ERROR_TYPE@.len() != RPC_GRPC_STATUS_CODE@.len());
        } else if i == 17 && j == 19 {
            assert(ERROR_TYPE@.len() != GRPC_STATUS@.len());
        } else if i == 18 && j == 19 {
            assert(RPC_GRPC_STATUS_CODE@.len() != GRPC_STATUS@.len());
        } else {
            assert(false);
        }
    }
}

proof fn lemma_attempt_value(
    method: Seq<char>,
    url: UrlView,
    template: Option<Seq<char>>,
    info: Option<&InstrumentationClientInfo>,
    prior_attempt_count: u32,
    k: int,
)
    requires
        0 <= k < 20,
        http_attempt_entries(method, url, template, info, prior_attempt_count)[k].1 is Some,
    ensures
        holds(
            span_of("http_request"@, http_attempt_entries(method, url, template, info, prior_attempt_count)),
            attempt_keys()[k],
            http_attempt_entries(method, url, template, info, prior_attempt_count)[k].1->0,
        ),
{
    lemma_attempt_keys(method, url, template, info, prior_attempt_count);
    let e = http_attempt_entries(method, url, template, info, prior_attempt_count);
    assert forall|j: int| k < j < e.len() implies (#[trigger] e[j]).0 != e[k].0 by {
        assert(e[j].0 == attempt_keys()[j]);
        assert(e[k].0 == attempt_keys()[k]);
    }
    lemma_created_span_value("http_request"@, e, k);
}

proof fn lemma_attempt_absent(
    method: Seq<char>,
    url: UrlView,
    template: Option<Seq<char>>,
    info: Option<&InstrumentationClientInfo>,
    prior_attempt_count: u32,
    k: int,
)
    requires
        0 <= k < 20,
        http_attempt_entries(method, url, template, info, prior_attempt_count)[k].1 is None,
    ensures
        !span_of("http_request"@, http_attempt_entries(method, url, template, info, prior_attempt_count)).values.dom().contains(
            attempt_keys()[k],
        ),
{
    lemma_attempt_keys(method, url, template, info, prior_attempt_count);
    let e = http_attempt_entries(method, url, template, info, prior_attempt_count);
    assert forall|i: int| 0 <= i < e.len() && (#[trigger] e[i]).0 == attempt_keys()[k] implies e[i].1 is None by {
        assert(e[i].0 == attempt_keys()[i]);
        if i != k {
            if i < k {
                assert(attempt_keys()[i] != attempt_keys()[k]);
            } else {
                assert(attempt_keys()[k] != attempt_keys()[i]);
            }
        }
    }
    lemma_created_span_lacks_unset_field("http_request"@, e, attempt_keys()[k]);
}

/// The span of an attempt of `method` on `url` is named `http_request` and
/// holds: the name `method`, or `method`, a space and the path template;
/// kind `Client`, system `http`; the method; the URL's host (empty when it
/// has none), text and scheme; the template and the client information when
/// there are any; the repository; the resend count on retries only; the
/// status `Unset`; and no response status or error type yet.
pub proof fn lemma_attempt_span_attributes(
    method: Seq<char>,
    url: UrlView,
    template: Option<Seq<char>>,
    info: Option<&InstrumentationClientInfo>,
    prior_attempt_count: u32,
)
    ensures
        ({
            let s = span_of(
                "http_request"@,
                http_attempt_entries(method, url, template, info, prior_attempt_count),
            );
            &&& s.name == "http_request"@
            &&& holds(s, OTEL_NAME@, str_attr(match template {
                Some(t) => method + " "@ + t,
                None => method,
            }))
            &&& holds(s, OTEL_KIND@, str_attr("Client"@))
            &&& holds(s, RPC_SYSTEM@, str_attr("http"@))
            &&& holds(s, HTTP_REQUEST_METHOD@, str_attr(method))
            &&& url.host is None ==> holds(s, SERVER_ADDRESS@, str_attr(""@))
            &&& url.host matches Some(h) ==> (h.len() > 0 && h[0] != '[' && h.last() != ']' ==> holds(
                s,
                SERVER_ADDRESS@,
                str_attr(h),
            ))
            &&& url.host matches Some(h) ==> (h.len() > 0 && h[0] != '[' && h.last() != ']' ==> holds(
                span_of(
                    "http_request"@,
                    http_attempt_entries(
                        method,
                        UrlView { host: Some(seq!['['] + h + seq![']']), ..url },
                        template,
                        info,
                        prior_attempt_count,
                    ),
                ),
                SERVER_ADDRESS@,
                str_attr(h),
            ))
            &&& holds(s, URL_FULL@, str_attr(url.serialization))
            &&& holds(s, URL_SCHEME@, str_attr(url.scheme))
            &&& (template matches Some(t) ==> holds(s, URL_TEMPLATE@, str_attr(t)))
            &&& (template is None ==> !s.values.dom().contains(URL_TEMPLATE@))
            &&& (info matches Some(i) ==> holds(s, URL_DOMAIN@, str_attr(i.default_host@))
                && holds(s, GCP_CLIENT_SERVICE@, str_attr(i.service_name@))
                && holds(s, GCP_CLIENT_VERSION@, str_attr(i.client_version@))
                && holds(s, GCP_CLIENT_ARTIFACT@, str_attr(i.client_artifact@)))
            &&& (info is None ==> !s.values.dom().contains(URL_DOMAIN@)
                && !s.values.dom().contains(GCP_CLIENT_SERVICE@))
            &&& holds(s, GCP_CLIENT_REPO@, str_attr("googleapis/google-cloud-rust"@))
            &&& (prior_attempt_count > 0 ==> holds(s, HTTP_REQUEST_RESEND_COUNT@, int_attr(prior_attempt_count as int)))
            &&& (prior_attempt_count == 0 ==> !s.values.dom().contains(HTTP_REQUEST_RESEND_COUNT@))
            &&& holds(s, OTEL_STATUS@, str_attr("Unset"@))
            &&& !s.values.dom().contains(HTTP_RESPONSE_STATUS_CODE@)
            &&& !s.values.dom().contains(ERROR_TYPE@)
        }),
{
    reveal_strlit("googleapis/google-cloud-rust");
    reveal_strlit("");
    lemma_attempt_keys(method, url, template, info, prior_attempt_count);
    let e = http_attempt_entries(method, url, template, info, prior_attempt_count);
    let (m, u, t, i, p) = (method, url, template, info, prior_attempt_count);
    if let Some(h) = url.host {
        if h.len() > 0 && h[0] != '[' && h.last() != ']' {
            assert(trim_leading(h, '[') == h);
            assert(trim_trailing(h, ']') == h);
            let b = seq!['['] + h + seq![']'];
            assert(b.drop_first() =~= h + seq![']']);
            assert((h + seq![']'])[0] == h[0]);
            assert(trim_leading(h + seq![']'], '[') == h + seq![']']);
            assert(trim_leading(b, '[') == h + seq![']']);
            assert((h + seq![']']).drop_last() =~= h);
            assert(trim_trailing(h + seq![']'], ']') == h);
            let u2 = UrlView { host: Some(b), ..url };
            lemma_attempt_keys(m, u2, t, i, p);
            lemma_attempt_value(m, u2, t, i, p, 4);
        }
    }
    lemma_attempt_value(m, u, t, i, p, 0);
    lemma_attempt_value(m, u, t, i, p, 1);
    lemma_attempt_value(m, u, t, i, p, 2);
    lemma_attempt_value(m, u, t, i, p, 3);
    lemma_attempt_value(m, u, t, i, p, 4);
    lemma_attempt_value(m, u, t, i, p, 6);
    lemma_attempt_value(m, u, t, i, p, 7);
    lemma_attempt_value(m, u, t, i, p, 12);
    lemma_attempt_value(m, u, t, i, p, 15);
    if t is Some {
        lemma_attempt_value(m, u, t, i, p, 8);
    } else {
        lemma_attempt_absent(m, u, t, i, p, 8);
    }
    if i is Some {
        lemma_attempt_value(m, u, t, i, p, 9);
        lemma_attempt_value(m, u, t, i, p, 10);
        lemma_attempt_value(m, u, t, i, p, 11);
        lemma_attempt_value(m, u, t, i, p, 13);
    } else {
        lemma_attempt_absent(m, u, t, i, p, 9);
        lemma_attempt_absent(m, u, t, i, p, 10);
    }
    if p > 0 {
        lemma_attempt_value(m, u, t, i, p, 14);
    } else {
        lemma_attempt_absent(m, u, t, i, p, 14);
    }
    lemma_attempt_absent(m, u, t, i, p, 16);
    lemma_attempt_absent(m, u, t, i, p, 17);
    assert(attempt_keys()[0] == OTEL_NAME@);
    assert(attempt_keys()[1] == OTEL_KIND@);
    assert(attempt_keys()[2] == RPC_SYSTEM@);
    assert(attempt_keys()[3] == HTTP_REQUEST_METHOD@);
    assert(attempt_keys()[4] == SERVER_ADDRESS@);
    assert(attempt_keys()[5] == SERVER_PORT@);
    assert(attempt_keys()[6] == URL_FULL@);
    assert(attempt_keys()[7] == URL_SCHEME@);
    assert(attempt_keys()[8] == URL_TEMPLATE@);
    assert(attempt_keys()[9] == URL_DOMAIN@);
    assert(attempt_keys()[10] == GCP_CLIENT_SERVICE@);
    assert(attempt_keys()[11] == GCP_CLIENT_VERSION@);
    assert(attempt_keys()[12] == GCP_CLIENT_REPO@);
    assert(attempt_keys()[13] == GCP_CLIENT_ARTIFACT@);
    assert(attempt_keys()[14] == HTTP_REQUEST_RESEND_COUNT@);
    assert(attempt_keys()[15] == OTEL_STATUS@);
    assert(attempt_keys()[16] == HTTP_RESPONSE_STATUS_CODE@);
    assert(attempt_keys()[17] == ERROR_TYPE@);
    assert(attempt_keys()[18] == RPC_GRPC_STATUS_CODE@);
    assert(attempt_keys()[19] == GRPC_STATUS@);
}

/// The `server.port` of an HTTP attempt span is the URL's explicit port,
/// or, when the URL names none, the port its scheme implies: 443 for
/// `https` and 80 for `http`.
pub proof fn lemma_attempt_span_port(
    method: Seq<char>,
    url: UrlView,
    template: Option<Seq<char>>,
    info: Option<&InstrumentationClientInfo>,
    prior_attempt_count: u32,
)
    ensures
        ({
            let s = span_of(
                "http_request"@,
                http_attempt_entries(method, url, template, info, prior_attempt_count),
            );
            &&& s.values.dom().contains(SERVER_PORT@)
            &&& url.port matches Some(p) ==> s.values[SERVER_PORT@] == int_attr(p as int)
            &&& (url.port is None && url.scheme == "https"@) ==> s.values[SERVER_PORT@] == int_attr(443)
            &&& (url.port is None && url.scheme == "http"@) ==> s.values[SERVER_PORT@] == int_attr(80)
        }),
{
    reveal_strlit("otel.name");
    reveal_strlit("otel.kind");
    reveal_strlit("rpc.system");
    reveal_strlit("http.request.method");
    reveal_strlit("server.address");
    reveal_strlit("server.port");
    reveal_strlit("url.full");
    reveal_strlit("url.scheme");
    reveal_strlit("url.template");
    reveal_strlit("url.domain");
    reveal_strlit("gcp.client.service");
    reveal_strlit("gcp.client.version");
    reveal_strlit("gcp.client.repo");
    reveal_strlit("gcp.client.artifact");
    reveal_strlit("http.request.resend_count");
    reveal_strlit("otel.status");
    reveal_strlit("http.response.status_code");
    reveal_strlit("error.type");
    reveal_strlit("rpc.grpc.status_code");
    reveal_strlit("grpc.status");
    reveal_strlit("https");
    reveal_strlit("http");
    reveal_strlit("ws");
    reveal_strlit("wss");
    reveal_strlit("ftp");
    let entries = http_attempt_entries(method, url, template, info, prior_attempt_count);
    assert(entries[5].0 == SERVER_PORT@);
    assert forall|j: int| 5 < j < entries.len() implies (#[trigger] entries[j]).0 != entries[5].0 by {
            if j == 6 {
                assert(entries[6].0 == URL_FULL@);
                assert(URL_FULL@.len() != SERVER_PORT@.len());
            } else if j == 7 {
                assert(entries[7].0 == URL_SCHEME@);
                assert(URL_SCHEME@.len() != SERVER_PORT@.len());
            } else if j == 8 {
                assert(entries[8].0 == URL_TEMPLATE@);
                assert(URL_TEMPLATE@.len() != SERVER_PORT@.len());
            } else if j == 9 {
                assert(entries[9].0 == URL_DOMAIN@);
                assert(URL_DOMAIN@.len() != SERVER_PORT@.len());
            } else if j == 10 {
                assert(entries[10].0 == GCP_CLIENT_SERVICE@);
                assert(GCP_CLIENT_SERVICE@.len() != SERVER_PORT@.len());
            } else if j == 11 {
                assert(entries[11].0 == GCP_CLIENT_VERSION@);
                assert(GCP_CLIENT_VERSION@.len() != SERVER_PORT@.len());
            } else if j == 12 {
                assert(entries[12].0 == GCP_CLIENT_REPO@);
                assert(GCP_CLIENT_REPO@.len() != SERVER_PORT@.len());
            } else if j == 13 {
                assert(entries[13].0 == GCP_CLIENT_ARTIFACT@);
                assert(GCP_CLIENT_ARTIFACT@.len() != SERVER_PORT@.len());
            } else if j == 14 {
                assert(entries[14].0 == HTTP_REQUEST_RESEND_COUNT@);
                assert(HTTP_REQUEST_RESEND_COUNT@.len() != SERVER_PORT@.len());
            } else if j == 15 {
                assert(entries[15].0 == OTEL_STATUS@);
                assert(OTEL_STATUS@[0] != SERVER_PORT@[0]);
            } else if j == 16 {
                assert(entries[16].0 == HTTP_RESPONSE_STATUS_CODE@);
                assert(HTTP_RESPONSE_STATUS_CODE@.len() != SERVER_PORT@.len());
            } else if j == 17 {
                assert(entries[17].0 == ERROR_TYPE@);
                assert(ERROR_TYPE@.len() != SERVER_PORT@.len());
            } else if j == 18 {
                assert(entries[18].0 == RPC_GRPC_STATUS_CODE@);
                assert(RPC_GRPC_STATUS_CODE@.len() != SERVER_PORT@.len());
            } else if j == 19 {
                assert(entries[19].0 == GRPC_STATUS@);
                assert(GRPC_STATUS@[0] != SERVER_PORT@[0]);
            } else {
                assert(false);
            }
    }
    lemma_created_span_value("http_request"@, entries, 5);
    assert("https"@.len() == 5 && "http"@.len() == 4 && "ws"@.len() == 2 && "wss"@.len() == 3);
    assert("ftp"@.len() == 3 && "ftp"@[0] != "wss"@[0]);
    if url.port is None && url.scheme == "https"@ {
        assert(default_port(url.scheme) == Some(443u16));
    }
    if url.port is None && url.scheme == "http"@ {
        assert(default_port(url.scheme) == Some(80u16));
    }
}

/// The outcome of an attempt decides its span's status: a successful
/// response reports `Ok`, its status code and no error type; any other
/// response reports `Error`, its status code and the error's
/// classification; a failed request reports `Error` and the
/// classification, with no status code.
pub proof fn lemma_attempt_status_follows_outcome(
    method: Seq<char>,
    url: UrlView,
    template: Option<Seq<char>>,
    info: Option<&InstrumentationClientInfo>,
    prior_attempt_count: u32,
    outcome: HttpOutcome,
    class: ErrorClassification,
)
    ensures
        ({
            let s = response_recorded(
                span_of(
                    "http_request"@,
                    http_attempt_entries(method, url, template, info, prior_attempt_count),
                ),
                outcome,
                class,
            );
            &&& s.values.dom().contains(OTEL_STATUS@)
            &&& match outcome {
                HttpOutcome::Response(code) => {
                    &&& s.values.dom().contains(HTTP_RESPONSE_STATUS_CODE@)
                    &&& s.values[HTTP_RESPONSE_STATUS_CODE@] == int_attr(code as int)
                    &&& (200 <= code && code <= 299) ==> s.values[OTEL_STATUS@] == str_attr("Ok"@)
                        && !s.values.dom().contains(ERROR_TYPE@)
                    &&& !(200 <= code && code <= 299) ==> s.values[OTEL_STATUS@] == str_attr("Error"@)
                        && s.values.dom().contains(ERROR_TYPE@) && s.values[ERROR_TYPE@]
                        == str_attr(class.error_type@)
                },
                HttpOutcome::Failure => {
                    &&& s.values[OTEL_STATUS@] == str_attr("Error"@)
                    &&& s.values.dom().contains(ERROR_TYPE@)
                    &&& s.values[ERROR_TYPE@] == str_attr(class.error_type@)
                    &&& !s.values.dom().contains(HTTP_RESPONSE_STATUS_CODE@)
                },
            }
        }),
{
    reveal_strlit("otel.name");
    reveal_strlit("otel.kind");
    reveal_strlit("rpc.system");
    reveal_strlit("http.request.method");
    reveal_strlit("server.address");
    reveal_strlit("server.port");
    reveal_strlit("url.full");
    reveal_strlit("url.scheme");
    reveal_strlit("url.template");
    reveal_strlit("url.domain");
    reveal_strlit("gcp.client.service");
    reveal_strlit("gcp.client.version");
    reveal_strlit("gcp.client.repo");
    reveal_strlit("gcp.client.artifact");
    reveal_strlit("http.request.resend_count");
    reveal_strlit("otel.status");
    reveal_strlit("http.response.status_code");
    reveal_strlit("error.type");
    reveal_strlit("rpc.grpc.status_code");
    reveal_strlit("grpc.status");
    reveal_strlit("Ok");
    reveal_strlit("Error");
    let entries = http_attempt_entries(method, url, template, info, prior_attempt_count);
    let s0 = span_of("http_request"@, entries);
    assert(s0.fields[15] == OTEL_STATUS@);
    assert(s0.fields[16] == HTTP_RESPONSE_STATUS_CODE@);
    assert(s0.fields[17] == ERROR_TYPE@);
    assert(s0.fields[18] == RPC_GRPC_STATUS_CODE@);
    assert(s0.fields[19] == GRPC_STATUS@);
    assert forall|i: int| 0 <= i < entries.len() && (#[trigger] entries[i]).0 == ERROR_TYPE@ implies entries[i].1 is None by {
        if i == 17 {
            assert(entries[17].1 is None);
        } else if i == 0 {
            assert(entries[0].0 == OTEL_NAME@);
            assert(OTEL_NAME@ != ERROR_TYPE@);
        } else if i == 1 {
            assert(entries[1].0 == OTEL_KIND@);
            assert(OTEL_KIND@ != ERROR_TYPE@);
        } else if i == 2 {
            assert(entries[2].0 == RPC_SYSTEM@);
            assert(RPC_SYSTEM@[0] != ERROR_TYPE@[0]);
            assert(RPC_SYSTEM@ != ERROR_TYPE@);
        } else if i == 3 {
            assert(entries[3].0 == HTTP_REQUEST_METHOD@);
            assert(HTTP_REQUEST_METHOD@ != ERROR_TYPE@);
        } else if i == 4 {
            assert(entries[4].0 == SERVER_ADDRESS@);
            assert(SERVER_ADDRESS@ != ERROR_TYPE@);
        } else if i == 5 {
            assert(entries[5].0 == SERVER_PORT@);
            assert(SERVER_PORT@ != ERROR_TYPE@);
        } else if i == 6 {
            assert(entries[6].0 == URL_FULL@);
            assert(URL_FULL@ != ERROR_TYPE@);
        } else if i == 7 {
            assert(entries[7].0 == URL_SCHEME@);
            assert(URL_SCHEME@[0] != ERROR_TYPE@[0]);
            assert(URL_SCHEME@ != ERROR_TYPE@);
        } else if i == 8 {
            assert(entries[8].0 == URL_TEMPLATE@);
            assert(URL_TEMPLATE@ != ERROR_TYPE@);
        } else if i == 9 {
            assert(entries[9].0 == URL_DOMAIN@);
            assert(URL_DOMAIN@[0] != ERROR_TYPE@[0]);
            assert(URL_DOMAIN@ != ERROR_TYPE@);
        } else if i == 10 {
            assert(entries[10].0 == GCP_CLIENT_SERVICE@);
            assert(GCP_CLIENT_SERVICE@ != ERROR_TYPE@);
        } else if i == 11 {
            assert(entries[11].0 == GCP_CLIENT_VERSION@);
            assert(GCP_CLIENT_VERSION@ != ERROR_TYPE@);
        } else if i == 12 {
            assert(entries[12].0 == GCP_CLIENT_REPO@);
            assert(GCP_CLIENT_REPO@ != ERROR_TYPE@);
        } else if i == 13 {
            assert(entries[13].0 == GCP_CLIENT_ARTIFACT@);
            assert(GCP_CLIENT_ARTIFACT@ != ERROR_TYPE@);
        } else if i == 14 {
            assert(entries[14].0 == HTTP_REQUEST_RESEND_COUNT@);
            assert(HTTP_REQUEST_RESEND_COUNT@ != ERROR_TYPE@);
        } else if i == 15 {
            assert(entries[15].0 == OTEL_STATUS@);
            assert(OTEL_STATUS@ != ERROR_TYPE@);
        } else if i == 16 {
            assert(entries[16].0 == HTTP_RESPONSE_STATUS_CODE@);
            assert(HTTP_RESPONSE_STATUS_CODE@ != ERROR_TYPE@);
        } else if i == 18 {
            assert(entries[18].0 == RPC_GRPC_STATUS_CODE@);
            assert(RPC_GRPC_STATUS_CODE@ != ERROR_TYPE@);
        } else if i == 19 {
            assert(entries[19].0 == GRPC_STATUS@);
            assert(GRPC_STATUS@ != ERROR_TYPE@);
        } else {
            assert(false);
        }
    }
    lemma_created_span_lacks_unset_field("http_request"@, entries, ERROR_TYPE@);
    assert forall|i: int|
        0 <= i < entries.len() && (#[trigger] entries[i]).0 == HTTP_RESPONSE_STATUS_CODE@ implies entries[i].1 is None by {
        if i == 16 {
            assert(entries[16].1 is None);
        } else if i == 0 {
            assert(entries[0].0 == OTEL_NAME@);
            assert(OTEL_NAME@ != HTTP_RESPONSE_STATUS_CODE@);
        } else if i == 1 {
            assert(entries[1].0 == OTEL_KIND@);
            assert(OTEL_KIND@ != HTTP_RESPONSE_STATUS_CODE@);
        } else if i == 2 {
            assert(entries[2].0 == RPC_SYSTEM@);
            assert(RPC_SYSTEM@ != HTTP_RESPONSE_STATUS_CODE@);
        } else if i == 3 {
            assert(entries[3].0 == HTTP_REQUEST_METHOD@);
            assert(HTTP_REQUEST_METHOD@ != HTTP_RESPONSE_STATUS_CODE@);
        } else if i == 4 {
            assert(entries[4].0 == SERVER_ADDRESS@);
            assert(SERVER_ADDRESS@ != HTTP_RESPONSE_STATUS_CODE@);
        } else if i == 5 {
            assert(entries[5].0 == SERVER_PORT@);
            assert(SERVER_PORT@ != HTTP_RESPONSE_STATUS_CODE@);
        } else if i == 6 {
            assert(entries[6].0 == URL_FULL@);
            assert(URL_FULL@ != HTTP_RESPONSE_STATUS_CODE@);
        } else if i == 7 {
            assert(entries[7].0 == URL_SCHEME@);
            assert(URL_SCHEME@ != HTTP_RESPONSE_STATUS_CODE@);
        } else if i == 8 {
            assert(entries[8].0 == URL_TEMPLATE@);
            assert(URL_TEMPLATE@ != HTTP_RESPONSE_STATUS_CODE@);
        } else if i == 9 {
            assert(entries[9].0 == URL_DOMAIN@);
            assert(URL_DOMAIN@ != HTTP_RESPONSE_STATUS_CODE@);
        } else if i == 10 {
            assert(entries[10].0 == GCP_CLIENT_SERVICE@);
            assert(GCP_CLIENT_SERVICE@ != HTTP_RESPONSE_STATUS_CODE@);
        } else if i == 11 {
            assert(entries[11].0 == GCP_CLIENT_VERSION@);
            assert(GCP_CLIENT_VERSION@ != HTTP_RESPONSE_STATUS_CODE@);
        } else if i == 12 {
            assert(entries[12].0 == GCP_CLIENT_REPO@);
            assert(GCP_CLIENT_REPO@ != HTTP_RESPONSE_STATUS_CODE@);
        } else if i == 13 {
            assert(entries[13].0 == GCP_CLIENT_ARTIFACT@);
            assert(GCP_CLIENT_ARTIFACT@ != HTTP_RESPONSE_STATUS_CODE@);
        } else if i == 14 {
            assert(entries[14].0 == HTTP_REQUEST_RESEND_COUNT@);
            assert(HTTP_REQUEST_RESEND_COUNT@[7] != HTTP_RESPONSE_STATUS_CODE@[7]);
            assert(HTTP_REQUEST_RESEND_COUNT@ != HTTP_RESPONSE_STATUS_CODE@);
        } else if i == 15 {
            assert(entries[15].0 == OTEL_STATUS@);
            assert(OTEL_STATUS@ != HTTP_RESPONSE_STATUS_CODE@);
        } else if i == 17 {
            assert(entries[17].0 == ERROR_TYPE@);
            assert(ERROR_TYPE@ != HTTP_RESPONSE_STATUS_CODE@);
        } else if i == 18 {
            assert(entries[18].0 == RPC_GRPC_STATUS_CODE@);
            assert(RPC_GRPC_STATUS_CODE@ != HTTP_RESPONSE_STATUS_CODE@);
        } else if i == 19 {
            assert(entries[19].0 == GRPC_STATUS@);
            assert(GRPC_STATUS@ != HTTP_RESPONSE_STATUS_CODE@);
        } else {
            assert(false);
        }
    }
    lemma_created_span_lacks_unset_field("http_request"@, entries, HTTP_RESPONSE_STATUS_CODE@);
    assert(ERROR_TYPE@ != OTEL_STATUS@);
    assert(ERROR_TYPE@ != HTTP_RESPONSE_STATUS_CODE@);
    assert(ERROR_TYPE@ != RPC_GRPC_STATUS_CODE@);
    assert(ERROR_TYPE@ != GRPC_STATUS@);
    assert(OTEL_STATUS@ != HTTP_RESPONSE_STATUS_CODE@);
    assert(OTEL_STATUS@ != RPC_GRPC_STATUS_CODE@);
    assert(OTEL_STATUS@[0] != GRPC_STATUS@[0]);
            assert(OTEL_STATUS@ != GRPC_STATUS@);
    assert(HTTP_RESPONSE_STATUS_CODE@ != RPC_GRPC_STATUS_CODE@);
    assert(HTTP_RESPONSE_STATUS_CODE@ != GRPC_STATUS@);
    assert(otel_status_text(OtelStatus::Success) == "Ok"@);
    assert(otel_status_text(OtelStatus::Error) == "Error"@);
}

/// What an attempt produced, as the transport report reads it.
pub enum TransportOutcome {
    /// A response: its status code, its URL, and the peer's address and
    /// port when known.
    Response { status: u16, url: String, remote: Option<(String, u16)> },
    /// A failure, with the URL of the request when known.
    Failure { request_url: Option<String> },
}

/// `info` is the transport report of an outcome after `attempt_count`
/// attempts (counting this one), classified by `class` when it is an error.
pub open spec fn transport_info_for(
    info: TransportSpanInfo,
    outcome: TransportOutcome,
    attempt_count: u32,
    class: ErrorClassification,
) -> bool {
    &&& info.request_resend_count == (if attempt_count > 1 {
        Some((attempt_count - 1) as i64)
    } else {
        None
    })
    &&& info.otel_status is None
    &&& match outcome {
        TransportOutcome::Response { status, url, remote } => {
            &&& info.http_status_code == Some(status)
            &&& info.url_full matches Some(u) && u@ == url@
            &&& match remote {
                Some((ip, port)) => info.server_address matches Some(a) && a@ == ip@
                    && info.server_port == Some(port as i32),
                None => info.server_address is None && info.server_port is None,
            }
            &&& if status_success(status) {
                info.error_type is None && info.rpc_grpc_status_code is None
            } else {
                info.error_type matches Some(e) && e@ == class.error_type@
                    && info.rpc_grpc_status_code == Some(class.grpc_code)
            }
        },
        TransportOutcome::Failure { request_url } => {
            &&& info.http_status_code is None
            &&& info.server_address is None
            &&& info.server_port is None
            &&& info.error_type matches Some(e) && e@ == class.error_type@
            &&& info.rpc_grpc_status_code == Some(class.grpc_code)
            &&& match request_url {
                Some(u) => info.url_full matches Some(x) && x@ == u@,
                None => info.url_full is None,
            }
        },
    }
}

/// The transport report of an attempt: the resend count is the number of
/// attempts before this one, reported on retries only, and it is what the
/// span of this attempt reports; a response reports its status, URL and
/// peer, and an error type and gRPC code only when its status is not in
/// the 2xx class; a failed request reports no status, the error type, the
/// gRPC code and the request URL when there is one; the status is left
/// for the client request span to decide.
pub proof fn lemma_transport_report(
    info: TransportSpanInfo,
    outcome: TransportOutcome,
    attempt_count: u32,
    class: ErrorClassification,
    method: Seq<char>,
    url: UrlView,
    template: Option<Seq<char>>,
    client: Option<&InstrumentationClientInfo>,
)
    requires
        transport_info_for(info, outcome, attempt_count, class),
    ensures
        attempt_count > 1 ==> info.request_resend_count == Some((attempt_count - 1) as i64),
        attempt_count <= 1 ==> info.request_resend_count is None,
        attempt_count >= 1 ==> ({
            let s = span_of(
                "http_request"@,
                http_attempt_entries(method, url, template, client, (attempt_count - 1) as u32),
            );
            match info.request_resend_count {
                Some(n) => holds(s, HTTP_REQUEST_RESEND_COUNT@, int_attr(n as int)),
                None => !s.values.dom().contains(HTTP_REQUEST_RESEND_COUNT@),
            }
        }),
        info.otel_status is None,
        outcome matches TransportOutcome::Response { status, url, remote } ==> {
            &&& info.http_status_code == Some(status)
            &&& info.url_full matches Some(u) && u@ == url@
            &&& (remote matches Some(peer) ==> (info.server_address matches Some(a) && a@ == peer.0@
                && info.server_port == Some(peer.1 as i32)))
            &&& (remote is None ==> info.server_address is None && info.server_port is None)
            &&& (200 <= status <= 299 ==> info.error_type is None && info.rpc_grpc_status_code is None)
            &&& (!(200 <= status <= 299) ==> (info.error_type matches Some(e) && e@ == class.error_type@
                && info.rpc_grpc_status_code == Some(class.grpc_code)))
        },
        outcome matches TransportOutcome::Failure { request_url } ==> {
            &&& info.http_status_code is None
            &&& info.server_address is None
            &&& info.error_type matches Some(e) && e@ == class.error_type@
            &&& info.rpc_grpc_status_code == Some(class.grpc_code)
            &&& (request_url matches Some(u) ==> (info.url_full matches Some(x) && x@ == u@))
            &&& (request_url is None ==> info.url_full is None)
        },
{
    if attempt_count >= 1 {
        lemma_attempt_span_attributes(method, url, template, client, (attempt_count - 1) as u32);
    }
}

/// Builds the transport report of an attempt's outcome, after
/// `attempt_count` attempts counting this one.
pub fn create_transport_span_info(
    outcome: &TransportOutcome,
    attempt_count: u32,
    class: &ErrorClassification,
) -> (r: TransportSpanInfo)
    ensures
        transport_info_for(r, *outcome, attempt_count, *class),
{
    let mut info = TransportSpanInfo::default();
    info.request_resend_count = if attempt_count > 1 {
        Some((attempt_count - 1) as i64)
    } else {
        None
    };
    match outcome {
        TransportOutcome::Response { status, url, remote } => {
            info.http_status_code = Some(*status);
            info.url_full = Some(url.clone());
            match remote {
                Some((ip, port)) => {
                    info.server_address = Some(ip.clone());
                    info.server_port = Some(*port as i32);
                },
                None => {},
            }
            if !is_success(*status) {
                info.error_type = Some(class.error_type.clone());
                info.rpc_grpc_status_code = Some(class.grpc_code);
            }
        },
        TransportOutcome::Failure { request_url } => {
            info.error_type = Some(class.error_type.clone());
            info.rpc_grpc_status_code = Some(class.grpc_code);
            match request_url {
                Some(u) => {
                    info.url_full = Some(u.clone());
                },
                None => {},
            }
        },
    }
    info
}

} // verus!
