//! The span of a logical client request, created before the first attempt
//! and enriched with what the transport reports.

use vstd::prelude::*;
use crate::attributes::{
    OTEL_NAME, OTEL_KIND, OTEL_STATUS, GCP_CLIENT_SERVICE, GCP_CLIENT_VERSION,
    GCP_CLIENT_ARTIFACT, GCP_CLIENT_LANGUAGE, GCP_CLIENT_REPO, GCP_CLIENT_LANGUAGE_RUST,
    GCP_CLIENT_REPO_GOOGLEAPIS, HTTP_RESPONSE_STATUS_CODE, RPC_GRPC_STATUS_CODE, ERROR_TYPE,
    SERVER_ADDRESS, SERVER_PORT, URL_FULL, HTTP_REQUEST_RESEND_COUNT, OtelStatus,
    otel_status_text,
};
use crate::options::{InstrumentationClientInfo, RequestOptions, TransportSpanInfo};
use crate::span::{
    AttributeValue, AttrView, SpanRecord, SpanView, span_of, str_attr, recorded, recorded_opt,
    opt_str_attr, opt_int_attr, int_attr, holds, distinct_fields, lemma_created_span_reads,
};
use crate::text::to_owned;

verus! {

/// The fields of a client request span named `name`, in declaration
/// order, with the values it starts with.
pub open spec fn client_request_entries(name: Seq<char>, info: InstrumentationClientInfo) -> Seq<
    (Seq<char>, Option<AttrView>),
> {
    seq![
        (OTEL_NAME@, Some(str_attr(name))),
        (OTEL_KIND@, Some(str_attr("Internal"@))),
        (GCP_CLIENT_SERVICE@, Some(str_attr(info.service_name@))),
        (GCP_CLIENT_VERSION@, Some(str_attr(info.client_version@))),
        (GCP_CLIENT_ARTIFACT@, Some(str_attr(info.client_artifact@))),
        (GCP_CLIENT_LANGUAGE@, Some(str_attr(GCP_CLIENT_LANGUAGE_RUST@))),
        (GCP_CLIENT_REPO@, Some(str_attr(GCP_CLIENT_REPO_GOOGLEAPIS@))),
        (OTEL_STATUS@, None),
        (HTTP_RESPONSE_STATUS_CODE@, None),
        (RPC_GRPC_STATUS_CODE@, None),
        (ERROR_TYPE@, None),
        (SERVER_ADDRESS@, None),
        (SERVER_PORT@, None),
        (URL_FULL@, None),
        (HTTP_REQUEST_RESEND_COUNT@, None),
    ]
}

/// Builds the view of a list of span entries.
pub open spec fn entry_views(v: Seq<(&'static str, Option<AttributeValue>)>) -> Seq<
    (Seq<char>, Option<AttrView>),
> {
    v.map_values(
        |e: (&'static str, Option<AttributeValue>)|
            (e.0@, match e.1 {
                Some(x) => Some(x@),
                None => None,
            }),
    )
}

/// Appends an entry that declares `key` with the string value `value`.
pub fn push_str_entry(
    v: &mut Vec<(&'static str, Option<AttributeValue>)>,
    key: &'static str,
    value: &str,
)
    ensures
        entry_views(final(v)@) == entry_views(old(v)@).push((key@, Some(str_attr(value@)))),
{
    let ghost before = v@;
    v.push((key, Some(AttributeValue::Str(to_owned(value)))));
    assert(entry_views(v@) =~= entry_views(before).push((key@, Some(str_attr(value@)))));
}

/// Appends an entry that declares `key` with an optional value.
pub fn push_entry(
    v: &mut Vec<(&'static str, Option<AttributeValue>)>,
    key: &'static str,
    value: Option<AttributeValue>,
)
    ensures
        entry_views(final(v)@) == entry_views(old(v)@).push(
            (key@, match value {
                Some(x) => Some(x@),
                None => None,
            }),
        ),
{
    let ghost before = v@;
    v.push((key, value));
    assert(entry_views(v@) =~= entry_views(before).push(entry_views(v@)[before.len() as int]));
}

/// Creates the span of a logical client request named `name`.
pub fn create_client_request_span(
    name: &str,
    client_info: &InstrumentationClientInfo,
    _options: &RequestOptions,
) -> (r: SpanRecord)
    ensures
        r@ == span_of("client_request"@, client_request_entries(name@, *client_info)),
{
    let mut e: Vec<(&'static str, Option<AttributeValue>)> = Vec::new();
    push_str_entry(&mut e, OTEL_NAME, name);
    push_str_entry(&mut e, OTEL_KIND, "Internal");
    push_str_entry(&mut e, GCP_CLIENT_SERVICE, client_info.service_name);
    push_str_entry(&mut e, GCP_CLIENT_VERSION, client_info.client_version);
    push_str_entry(&mut e, GCP_CLIENT_ARTIFACT, client_info.client_artifact);
    push_str_entry(&mut e, GCP_CLIENT_LANGUAGE, GCP_CLIENT_LANGUAGE_RUST);
    push_str_entry(&mut e, GCP_CLIENT_REPO, GCP_CLIENT_REPO_GOOGLEAPIS);
    push_entry(&mut e, OTEL_STATUS, None);
    push_entry(&mut e, HTTP_RESPONSE_STATUS_CODE, None);
    push_entry(&mut e, RPC_GRPC_STATUS_CODE, None);
    push_entry(&mut e, ERROR_TYPE, None);
    push_entry(&mut e, SERVER_ADDRESS, None);
    push_entry(&mut e, SERVER_PORT, None);
    push_entry(&mut e, URL_FULL, None);
    push_entry(&mut e, HTTP_REQUEST_RESEND_COUNT, None);
    let ghost ev = entry_views(e@);
    assert(ev =~= client_request_entries(name@, *client_info));
    SpanRecord::new(to_owned("client_request"), e)
}

/// An optional string as an optional span value.
pub open spec fn opt_string(v: Option<String>) -> Option<AttrView> {
    opt_str_attr(
        match v {
            Some(s) => Some(s@),
            None => None,
        },
    )
}

/// The span `s` after a client request span is enriched with `info`: each
/// piece of transport information that is present is recorded, in turn.
pub open spec fn client_request_enriched(s: SpanView, info: Option<&TransportSpanInfo>) -> SpanView {
    match info {
        None => s,
        Some(i) => {
            let s1 = recorded_opt(
                s,
                HTTP_RESPONSE_STATUS_CODE@,
                opt_int_attr(
                    match i.http_status_code {
                        Some(c) => Some(c as int),
                        None => None,
                    },
                ),
            );
            let s2 = recorded_opt(
                s1,
                RPC_GRPC_STATUS_CODE@,
                opt_int_attr(
                    match i.rpc_grpc_status_code {
                        Some(c) => Some(c as int),
                        None => None,
                    },
                ),
            );
            let s3 = recorded_opt(s2, ERROR_TYPE@, opt_string(i.error_type));
            let s4 = recorded_opt(s3, OTEL_STATUS@, opt_string(i.otel_status));
            let s5 = recorded_opt(s4, SERVER_ADDRESS@, opt_string(i.server_address));
            let s6 = recorded_opt(
                s5,
                SERVER_PORT@,
                opt_int_attr(
                    match i.server_port {
                        Some(c) => Some(c as int),
                        None => None,
                    },
                ),
            );
            let s7 = recorded_opt(s6, URL_FULL@, opt_string(i.url_full));
            recorded_opt(
                s7,
                HTTP_REQUEST_RESEND_COUNT@,
                opt_int_attr(
                    match i.request_resend_count {
                        Some(c) => Some(c as int),
                        None => None,
                    },
                ),
            )
        },
    }
}

/// An optional string copied into an optional span value.
pub fn string_value(v: &Option<String>) -> (r: Option<AttributeValue>)
    ensures
        crate::span::opt_attr(r) == opt_string(*v),
{
    match v {
        Some(s) => Some(AttributeValue::Str(s.clone())),
        None => None,
    }
}

/// Enriches a client request span with the transport information of the
/// response, when the response carries any.
pub fn enrich_client_request_span(transport_info: Option<&TransportSpanInfo>, span: &mut SpanRecord)
    ensures
        final(span)@ == client_request_enriched(old(span)@, transport_info),
{
    match transport_info {
        None => {},
        Some(info) => {
            span.record_opt(
                HTTP_RESPONSE_STATUS_CODE,
                match info.http_status_code {
                    Some(c) => Some(AttributeValue::Int(c as i64)),
                    None => None,
                },
            );
            span.record_opt(
                RPC_GRPC_STATUS_CODE,
                match info.rpc_grpc_status_code {
                    Some(c) => Some(AttributeValue::Int(c as i64)),
                    None => None,
                },
            );
            span.record_opt(ERROR_TYPE, string_value(&info.error_type));
            span.record_opt(OTEL_STATUS, string_value(&info.otel_status));
            span.record_opt(SERVER_ADDRESS, string_value(&info.server_address));
            span.record_opt(
                SERVER_PORT,
                match info.server_port {
                    Some(c) => Some(AttributeValue::Int(c as i64)),
                    None => None,
                },
            );
            span.record_opt(URL_FULL, string_value(&info.url_full));
            span.record_opt(
                HTTP_REQUEST_RESEND_COUNT,
                match info.request_resend_count {
                    Some(c) => Some(AttributeValue::Int(c)),
                    None => None,
                },
            );
        },
    }
}

/// Enriches a client request span with the classification of the error
/// that ended the request: its error type and its status.
pub fn enrich_client_request_span_err(error_type: &str, status: OtelStatus, span: &mut SpanRecord)
    ensures
        final(span)@ == recorded(
            recorded(old(span)@, ERROR_TYPE@, str_attr(error_type@)),
            OTEL_STATUS@,
            str_attr(otel_status_text(status)),
        ),
{
    span.record(ERROR_TYPE, AttributeValue::Str(to_owned(error_type)));
    span.record(OTEL_STATUS, AttributeValue::Str(to_owned(status.as_str())));
}

/// The client request span declares each of its fields once.
proof fn lemma_client_request_fields(name: Seq<char>, info: InstrumentationClientInfo)
    ensures
        distinct_fields(client_request_entries(name, info)),
        client_request_entries(name, info).len() == 15,
        client_request_entries(name, info)[0].0 == OTEL_NAME@,
        client_request_entries(name, info)[1].0 == OTEL_KIND@,
        client_request_entries(name, info)[2].0 == GCP_CLIENT_SERVICE@,
        client_request_entries(name, info)[3].0 == GCP_CLIENT_VERSION@,
        client_request_entries(name, info)[4].0 == GCP_CLIENT_ARTIFACT@,
        client_request_entries(name, info)[5].0 == GCP_CLIENT_LANGUAGE@,
        client_request_entries(name, info)[6].0 == GCP_CLIENT_REPO@,
        client_request_entries(name, info)[7].0 == OTEL_STATUS@,
        client_request_entries(name, info)[8].0 == HTTP_RESPONSE_STATUS_CODE@,
        client_request_entries(name, info)[9].0 == RPC_GRPC_STATUS_CODE@,
        client_request_entries(name, info)[10].0 == ERROR_TYPE@,
        client_request_entries(name, info)[11].0 == SERVER_ADDRESS@,
        client_request_entries(name, info)[12].0 == SERVER_PORT@,
        client_request_entries(name, info)[13].0 == URL_FULL@,
        client_request_entries(name, info)[14].0 == HTTP_REQUEST_RESEND_COUNT@,
{
    reveal_strlit("error.type");
    reveal_strlit("gcp.client.artifact");
    reveal_strlit("gcp.client.language");
    reveal_strlit("gcp.client.repo");
    reveal_strlit("gcp.client.service");
    reveal_strlit("gcp.client.version");
    reveal_strlit("http.request.resend_count");
    reveal_strlit("http.response.status_code");
    reveal_strlit("otel.kind");
    reveal_strlit("otel.name");
    reveal_strlit("otel.status");
    reveal_strlit("rpc.grpc.status_code");
    reveal_strlit("server.address");
    reveal_strlit("server.port");
    reveal_strlit("url.full");
    let e = client_request_entries(name, info);
    assert(e[0].0 == OTEL_NAME@);
    assert(e[1].0 == OTEL_KIND@);
    assert(e[2].0 == GCP_CLIENT_SERVICE@);
    assert(e[3].0 == GCP_CLIENT_VERSION@);
    assert(e[4].0 == GCP_CLIENT_ARTIFACT@);
    assert(e[5].0 == GCP_CLIENT_LANGUAGE@);
    assert(e[6].0 == GCP_CLIENT_REPO@);
    assert(e[7].0 == OTEL_STATUS@);
    assert(e[8].0 == HTTP_RESPONSE_STATUS_CODE@);
    assert(e[9].0 == RPC_GRPC_STATUS_CODE@);
    assert(e[10].0 == ERROR_TYPE@);
    assert(e[11].0 == SERVER_ADDRESS@);
    assert(e[12].0 == SERVER_PORT@);
    assert(e[13].0 == URL_FULL@);
    assert(e[14].0 == HTTP_REQUEST_RESEND_COUNT@);
    assert forall|i: int, j: int| 0 <= i < j < e.len() implies (#[trigger] e[i]).0 != (#[trigger] e[j]).0 by {
        if i == 0 && j == 1 {
            assert(OTEL_NAME@[5] != OTEL_KIND@[5]);
        } else if i == 0 && j == 2 {
            assert(OTEL_NAME@.len() != GCP_CLIENT_SERVICE@.len());
        } else if i == 0 && j == 3 {
            assert(OTEL_NAME@.len() != GCP_CLIENT_VERSION@.len());
        } else if i == 0 && j == 4 {
            assert(OTEL_NAME@.len() != GCP_CLIENT_ARTIFACT@.len());
        } else if i == 0 && j == 5 {
            assert(OTEL_NAME@.len() != GCP_CLIENT_LANGUAGE@.len());
        } else if i == 0 && j == 6 {
            assert(OTEL_NAME@.len() != GCP_CLIENT_REPO@.len());
        } else if i == 0 && j == 7 {
            assert(OTEL_NAME@.len() != OTEL_STATUS@.len());
        } else if i == 0 && j == 8 {
            assert(OTEL_NAME@.len() != HTTP_RESPONSE_STATUS_CODE@.len());
        } else if i == 0 && j == 9 {
            assert(OTEL_NAME@.len() != RPC_GRPC_STATUS_CODE@.len());
        } else if i == 0 && j == 10 {
            assert(OTEL_NAME@.len() != ERROR_TYPE@.len());
        } else if i == 0 && j == 11 {
            assert(OTEL_NAME@.len() != SERVER_ADDRESS@.len());
        } else if i == 0 && j == 12 {
            assert(OTEL_NAME@.len() != SERVER_PORT@.len());
        } else if i == 0 && j == 13 {
            assert(OTEL_NAME@.len() != URL_FULL@.len());
        } else if i == 0 && j == 14 {
            assert(OTEL_NAME@.len() != HTTP_REQUEST_RESEND_COUNT@.len());
        } else if i == 1 && j == 2 {
            assert(OTEL_KIND@.len() != GCP_CLIENT_SERVICE@.len());
        } else if i == 1 && j == 3 {
            assert(OTEL_KIND@.len() != GCP_CLIENT_VERSION@.len());
        } else if i == 1 && j == 4 {
            assert(OTEL_KIND@.len() != GCP_CLIENT_ARTIFACT@.len());
        } else if i == 1 && j == 5 {
            assert(OTEL_KIND@.len() != GCP_CLIENT_LANGUAGE@.len());
        } else if i == 1 && j == 6 {
            assert(OTEL_KIND@.len() != GCP_CLIENT_REPO@.len());
        } else if i == 1 && j == 7 {
            assert(OTEL_KIND@.len() != OTEL_STATUS@.len());
        } else if i == 1 && j == 8 {
            assert(OTEL_KIND@.len() != HTTP_RESPONSE_STATUS_CODE@.len());
        } else if i == 1 && j == 9 {
            assert(OTEL_KIND@.len() != RPC_GRPC_STATUS_CODE@.len());
        } else if i == 1 && j == 10 {
            assert(OTEL_KIND@.len() != ERROR_TYPE@.len());
        } else if i == 1 && j == 11 {
            assert(OTEL_KIND@.len() != SERVER_ADDRESS@.len());
        } else if i == 1 && j == 12 {
            assert(OTEL_KIND@.len() != SERVER_PORT@.len());
        } else if i == 1 && j == 13 {
            assert(OTEL_KIND@.len() != URL_FULL@.len());
        } else if i == 1 && j == 14 {
            assert(OTEL_KIND@.len() != HTTP_REQUEST_RESEND_COUNT@.len());
        } else if i == 2 && j == 3 {
            assert(GCP_CLIENT_SERVICE@[11] != GCP_CLIENT_VERSION@[11]);
        } else if i == 2 && j == 4 {
            assert(GCP_CLIENT_SERVICE@.len() != GCP_CLIENT_ARTIFACT@.len());
        } else if i == 2 && j == 5 {
            assert(GCP_CLIENT_SERVICE@.len() != GCP_CLIENT_LANGUAGE@.len());
        } else if i == 2 && j == 6 {
            assert(GCP_CLIENT_SERVICE@.len() != GCP_CLIENT_REPO@.len());
        } else if i == 2 && j == 7 {
            assert(GCP_CLIENT_SERVICE@.len() != OTEL_STATUS@.len());
        } else if i == 2 && j == 8 {
            assert(GCP_CLIENT_SERVICE@.len() != HTTP_RESPONSE_STATUS_CODE@.len());
        } else if i == 2 && j == 9 {
            assert(GCP_CLIENT_SERVICE@.len() != RPC_GRPC_STATUS_CODE@.len());
        } else if i == 2 && j == 10 {
            assert(GCP_CLIENT_SERVICE@.len() != ERROR_TYPE@.len());
        } else if i == 2 && j == 11 {
            assert(GCP_CLIENT_SERVICE@.len() != SERVER_ADDRESS@.len());
        } else if i == 2 && j == 12 {
            assert(GCP_CLIENT_SERVICE@.len() != SERVER_PORT@.len());
        } else if i == 2 && j == 13 {
            assert(GCP_CLIENT_SERVICE@.len() != URL_FULL@.len());
        } else if i == 2 && j == 14 {
            assert(GCP_CLIENT_SERVICE@.len() != HTTP_REQUEST_RESEND_COUNT@.len());
        } else if i == 3 && j == 4 {
            assert(GCP_CLIENT_VERSION@.len() != GCP_CLIENT_ARTIFACT@.len());
        } else if i == 3 && j == 5 {
            assert(GCP_CLIENT_VERSION@.len() != GCP_CLIENT_LANGUAGE@.len());
        } else if i == 3 && j == 6 {
            assert(GCP_CLIENT_VERSION@.len() != GCP_CLIENT_REPO@.len());
        } else if i == 3 && j == 7 {
            assert(GCP_CLIENT_VERSION@.len() != OTEL_STATUS@.len());
        } else if i == 3 && j == 8 {
            assert(GCP_CLIENT_VERSION@.len() != HTTP_RESPONSE_STATUS_CODE@.len());
        } else if i == 3 && j == 9 {
            assert(GCP_CLIENT_VERSION@.len() != RPC_GRPC_STATUS_CODE@.len());
        } else if i == 3 && j == 10 {
            assert(GCP_CLIENT_VERSION@.len() != ERROR_TYPE@.len());
        } else if i == 3 && j == 11 {
            assert(GCP_CLIENT_VERSION@.len() != SERVER_ADDRESS@.len());
        } else if i == 3 && j == 12 {
            assert(GCP_CLIENT_VERSION@.len() != SERVER_PORT@.len());
        } else if i == 3 && j == 13 {
            assert(GCP_CLIENT_VERSION@.len() != URL_FULL@.len());
        } else if i == 3 && j == 14 {
            assert(GCP_CLIENT_VERSION@.len() != HTTP_REQUEST_RESEND_COUNT@.len());
        } else if i == 4 && j == 5 {
            assert(GCP_CLIENT_ARTIFACT@[11] != GCP_CLIENT_LANGUAGE@[11]);
        } else if i == 4 && j == 6 {
            assert(GCP_CLIENT_ARTIFACT@.len() != GCP_CLIENT_REPO@.len());
        } else if i == 4 && j == 7 {
            assert(GCP_CLIENT_ARTIFACT@.len() != OTEL_STATUS@.len());
        } else if i == 4 && j == 8 {
            assert(GCP_CLIENT_ARTIFACT@.len() != HTTP_RESPONSE_STATUS_CODE@.len());
        } else if i == 4 && j == 9 {
            assert(GCP_CLIENT_ARTIFACT@.len() != RPC_GRPC_STATUS_CODE@.len());
        } else if i == 4 && j == 10 {
            assert(GCP_CLIENT_ARTIFACT@.len() != ERROR_TYPE@.len());
        } else if i == 4 && j == 11 {
            assert(GCP_CLIENT_ARTIFACT@.len() != SERVER_ADDRESS@.len());
        } else if i == 4 && j == 12 {
            assert(GCP_CLIENT_ARTIFACT@.len() != SERVER_PORT@.len());
        } else if i == 4 && j == 13 {
            assert(GCP_CLIENT_ARTIFACT@.len() != URL_FULL@.len());
        } else if i == 4 && j == 14 {
            assert(GCP_CLIENT_ARTIFACT@.len() != HTTP_REQUEST_RESEND_COUNT@.len());
        } else if i == 5 && j == 6 {
            assert(GCP_CLIENT_LANGUAGE@.len() != GCP_CLIENT_REPO@.len());
        } else if i == 5 && j == 7 {
            assert(GCP_CLIENT_LANGUAGE@.len() != OTEL_STATUS@.len());
        } else if i == 5 && j == 8 {
            assert(GCP_CLIENT_LANGUAGE@.len() != HTTP_RESPONSE_STATUS_CODE@.len());
        } else if i == 5 && j == 9 {
            assert(GCP_CLIENT_LANGUAGE@.len() != RPC_GRPC_STATUS_CODE@.len());
        } else if i == 5 && j == 10 {
            assert(GCP_CLIENT_LANGUAGE@.len() != ERROR_TYPE@.len());
        } else if i == 5 && j == 11 {
            assert(GCP_CLIENT_LANGUAGE@.len() != SERVER_ADDRESS@.len());
        } else if i == 5 && j == 12 {
            assert(GCP_CLIENT_LANGUAGE@.len() != SERVER_PORT@.len());
        } else if i == 5 && j == 13 {
            assert(GCP_CLIENT_LANGUAGE@.len() != URL_FULL@.len());
        } else if i == 5 && j == 14 {
            assert(GCP_CLIENT_LANGUAGE@.len() != HTTP_REQUEST_RESEND_COUNT@.len());
        } else if i == 6 && j == 7 {
            assert(GCP_CLIENT_REPO@.len() != OTEL_STATUS@.len());
        } else if i == 6 && j == 8 {
            assert(GCP_CLIENT_REPO@.len() != HTTP_RESPONSE_STATUS_CODE@.len());
        } else if i == 6 && j == 9 {
            assert(GCP_CLIENT_REPO@.len() != RPC_GRPC_STATUS_CODE@.len());
        } else if i == 6 && j == 10 {
            assert(GCP_CLIENT_REPO@.len() != ERROR_TYPE@.len());
        } else if i == 6 && j == 11 {
            assert(GCP_CLIENT_REPO@.len() != SERVER_ADDRESS@.len());
        } else if i == 6 && j == 12 {
            assert(GCP_CLIENT_REPO@.len() != SERVER_PORT@.len());
        } else if i == 6 && j == 13 {
            assert(GCP_CLIENT_REPO@.len() != URL_FULL@.len());
        } else if i == 6 && j == 14 {
            assert(GCP_CLIENT_REPO@.len() != HTTP_REQUEST_RESEND_COUNT@.len());
        } else if i == 7 && j == 8 {
            assert(OTEL_STATUS@.len() != HTTP_RESPONSE_STATUS_CODE@.len());
        } else if i == 7 && j == 9 {
            assert(OTEL_STATUS@.len() != RPC_GRPC_STATUS_CODE@.len());
        } else if i == 7 && j == 10 {
            assert(OTEL_STATUS@.len() != ERROR_TYPE@.len());
        } else if i == 7 && j == 11 {
            assert(OTEL_STATUS@.len() != SERVER_ADDRESS@.len());
        } else if i == 7 && j == 12 {
            assert(OTEL_STATUS@[0] != SERVER_PORT@[0]);
        } else if i == 7 && j == 13 {
            assert(OTEL_STATUS@.len() != URL_FULL@.len());
        } else if i == 7 && j == 14 {
            assert(OTEL_STATUS@.len() != HTTP_REQUEST_RESEND_COUNT@.len());
        } else if i == 8 && j == 9 {
            assert(HTTP_RESPONSE_STATUS_CODE@.len() != RPC_GRPC_STATUS_CODE@.len());
        } else if i == 8 && j == 10 {
            assert(HTTP_RESPONSE_STATUS_CODE@.len() != ERROR_TYPE@.len());
        } else if i == 8 && j == 11 {
            assert(HTTP_RESPONSE_STATUS_CODE@.len() != SERVER_ADDRESS@.len());
        } else if i == 8 && j == 12 {
            assert(HTTP_RESPONSE_STATUS_CODE@.len() != SERVER_PORT@.len());
        } else if i == 8 && j == 13 {
            assert(HTTP_RESPONSE_STATUS_CODE@.len() != URL_FULL@.len());
        } else if i == 8 && j == 14 {
            assert(HTTP_RESPONSE_STATUS_CODE@[7] != HTTP_REQUEST_RESEND_COUNT@[7]);
        } else if i == 9 && j == 10 {
            assert(RPC_GRPC_STATUS_CODE@.len() != ERROR_TYPE@.len());
        } else if i == 9 && j == 11 {
            assert(RPC_GRPC_STATUS_CODE@.len() != SERVER_ADDRESS@.len());
        } else if i == 9 && j == 12 {
            assert(RPC_GRPC_STATUS_CODE@.len() != SERVER_PORT@.len());
        } else if i == 9 && j == 13 {
            assert(RPC_GRPC_STATUS_CODE@.len() != URL_FULL@.len());
        } else if i == 9 && j == 14 {
            assert(RPC_GRPC_STATUS_CODE@.len() != HTTP_REQUEST_RESEND_COUNT@.len());
        } else if i == 10 && j == 11 {
            assert(ERROR_TYPE@.len() != SERVER_ADDRESS@.len());
        } else if i == 10 && j == 12 {
            assert(ERROR_TYPE@.len() != SERVER_PORT@.len());
        } else if i == 10 && j == 13 {
            assert(ERROR_TYPE@.len() != URL_FULL@.len());
        } else if i == 10 && j == 14 {
            assert(ERROR_TYPE@.len() != HTTP_REQUEST_RESEND_COUNT@.len());
        } else if i == 11 && j == 12 {
            assert(SERVER_ADDRESS@.len() != SERVER_PORT@.len());
        } else if i == 11 && j == 13 {
            assert(SERVER_ADDRESS@.len() != URL_FULL@.len());
        } else if i == 11 && j == 14 {
            assert(SERVER_ADDRESS@.len() != HTTP_REQUEST_RESEND_COUNT@.len());
        } else if i == 12 && j == 13 {
            assert(SERVER_PORT@.len() != URL_FULL@.len());
        } else if i == 12 && j == 14 {
            assert(SERVER_PORT@.len() != HTTP_REQUEST_RESEND_COUNT@.len());
        } else if i == 13 && j == 14 {
            assert(URL_FULL@.len() != HTTP_REQUEST_RESEND_COUNT@.len());
        } else {
            assert(false);
        }
    }
}

/// The span that `create_client_request_span` makes for `name`.
pub open spec fn client_request_span_of(name: Seq<char>, info: InstrumentationClientInfo) -> SpanView {
    span_of("client_request"@, client_request_entries(name, info))
}

/// A new client request span holds its name, kind `Internal`, the client's
/// service, version and artifact, language `rust` and the repository, and
/// nothing yet of the response: no status, response code, gRPC code, error
/// type, address, port, URL or resend count.
pub proof fn lemma_client_request_span_created(name: Seq<char>, info: InstrumentationClientInfo)
    ensures
        holds(client_request_span_of(name, info), OTEL_NAME@, str_attr(name)),
        holds(client_request_span_of(name, info), OTEL_KIND@, str_attr("Internal"@)),
        holds(client_request_span_of(name, info), GCP_CLIENT_SERVICE@, str_attr(info.service_name@)),
        holds(client_request_span_of(name, info), GCP_CLIENT_VERSION@, str_attr(info.client_version@)),
        holds(client_request_span_of(name, info), GCP_CLIENT_ARTIFACT@, str_attr(info.client_artifact@)),
        holds(client_request_span_of(name, info), GCP_CLIENT_LANGUAGE@, str_attr("rust"@)),
        holds(client_request_span_of(name, info), GCP_CLIENT_REPO@, str_attr("googleapis/google-cloud-rust"@)),
        !client_request_span_of(name, info).values.dom().contains(OTEL_STATUS@),
        !client_request_span_of(name, info).values.dom().contains(HTTP_RESPONSE_STATUS_CODE@),
        !client_request_span_of(name, info).values.dom().contains(RPC_GRPC_STATUS_CODE@),
        !client_request_span_of(name, info).values.dom().contains(ERROR_TYPE@),
        !client_request_span_of(name, info).values.dom().contains(SERVER_ADDRESS@),
        !client_request_span_of(name, info).values.dom().contains(SERVER_PORT@),
        !client_request_span_of(name, info).values.dom().contains(URL_FULL@),
        !client_request_span_of(name, info).values.dom().contains(HTTP_REQUEST_RESEND_COUNT@),
{
    reveal_strlit("rust");
    reveal_strlit("googleapis/google-cloud-rust");
    lemma_client_request_fields(name, info);
    let e = client_request_entries(name, info);
    lemma_created_span_reads("client_request"@, e);
    let _ = e[0];
    let _ = e[1];
    let _ = e[2];
    let _ = e[3];
    let _ = e[4];
    let _ = e[5];
    let _ = e[6];
    let _ = e[7];
    let _ = e[8];
    let _ = e[9];
    let _ = e[10];
    let _ = e[11];
    let _ = e[12];
    let _ = e[13];
    let _ = e[14];
}

/// Enriching a new client request span with a transport report records
/// each piece of the report under its key, and only those: the response
/// code, the gRPC code, the error type, the status, the address, the port,
/// the URL and the resend count each hold the report's value when the
/// report has one, and stay unset when it has none; the name is kept.
pub proof fn lemma_client_request_enriched_report(
    name: Seq<char>,
    info: InstrumentationClientInfo,
    ti: &TransportSpanInfo,
)
    ensures
        holds(client_request_enriched(client_request_span_of(name, info), Some(ti)), OTEL_NAME@, str_attr(name)),
        ti.http_status_code matches Some(v) ==> holds(client_request_enriched(client_request_span_of(name, info), Some(ti)), HTTP_RESPONSE_STATUS_CODE@, int_attr(v as int)),
        ti.http_status_code is None ==> !client_request_enriched(client_request_span_of(name, info), Some(ti)).values.dom().contains(HTTP_RESPONSE_STATUS_CODE@),
        ti.rpc_grpc_status_code matches Some(v) ==> holds(client_request_enriched(client_request_span_of(name, info), Some(ti)), RPC_GRPC_STATUS_CODE@, int_attr(v as int)),
        ti.rpc_grpc_status_code is None ==> !client_request_enriched(client_request_span_of(name, info), Some(ti)).values.dom().contains(RPC_GRPC_STATUS_CODE@),
        ti.error_type matches Some(v) ==> holds(client_request_enriched(client_request_span_of(name, info), Some(ti)), ERROR_TYPE@, str_attr(v@)),
        ti.error_type is None ==> !client_request_enriched(client_request_span_of(name, info), Some(ti)).values.dom().contains(ERROR_TYPE@),
        ti.otel_status matches Some(v) ==> holds(client_request_enriched(client_request_span_of(name, info), Some(ti)), OTEL_STATUS@, str_attr(v@)),
        ti.otel_status is None ==> !client_request_enriched(client_request_span_of(name, info), Some(ti)).values.dom().contains(OTEL_STATUS@),
        ti.server_address matches Some(v) ==> holds(client_request_enriched(client_request_span_of(name, info), Some(ti)), SERVER_ADDRESS@, str_attr(v@)),
        ti.server_address is None ==> !client_request_enriched(client_request_span_of(name, info), Some(ti)).values.dom().contains(SERVER_ADDRESS@),
        ti.server_port matches Some(v) ==> holds(client_request_enriched(client_request_span_of(name, info), Some(ti)), SERVER_PORT@, int_attr(v as int)),
        ti.server_port is None ==> !client_request_enriched(client_request_span_of(name, info), Some(ti)).values.dom().contains(SERVER_PORT@),
        ti.url_full matches Some(v) ==> holds(client_request_enriched(client_request_span_of(name, info), Some(ti)), URL_FULL@, str_attr(v@)),
        ti.url_full is None ==> !client_request_enriched(client_request_span_of(name, info), Some(ti)).values.dom().contains(URL_FULL@),
        ti.request_resend_count matches Some(v) ==> holds(client_request_enriched(client_request_span_of(name, info), Some(ti)), HTTP_REQUEST_RESEND_COUNT@, int_attr(v as int)),
        ti.request_resend_count is None ==> !client_request_enriched(client_request_span_of(name, info), Some(ti)).values.dom().contains(HTTP_REQUEST_RESEND_COUNT@),
{
    reveal_strlit("error.type");
    reveal_strlit("http.request.resend_count");
    reveal_strlit("http.response.status_code");
    reveal_strlit("otel.name");
    reveal_strlit("otel.status");
    reveal_strlit("rpc.grpc.status_code");
    reveal_strlit("server.address");
    reveal_strlit("server.port");
    reveal_strlit("url.full");
    lemma_client_request_span_created(name, info);
    lemma_client_request_fields(name, info);
    let s0 = client_request_span_of(name, info);
    assert(s0.fields[7] == OTEL_STATUS@);
    assert(s0.fields.contains(OTEL_STATUS@));
    assert(s0.fields[8] == HTTP_RESPONSE_STATUS_CODE@);
    assert(s0.fields.contains(HTTP_RESPONSE_STATUS_CODE@));
    assert(s0.fields[9] == RPC_GRPC_STATUS_CODE@);
    assert(s0.fields.contains(RPC_GRPC_STATUS_CODE@));
    assert(s0.fields[10] == ERROR_TYPE@);
    assert(s0.fields.contains(ERROR_TYPE@));
    assert(s0.fields[11] == SERVER_ADDRESS@);
    assert(s0.fields.contains(SERVER_ADDRESS@));
    assert(s0.fields[12] == SERVER_PORT@);
    assert(s0.fields.contains(SERVER_PORT@));
    assert(s0.fields[13] == URL_FULL@);
    assert(s0.fields.contains(URL_FULL@));
    assert(s0.fields[14] == HTTP_REQUEST_RESEND_COUNT@);
    assert(s0.fields.contains(HTTP_REQUEST_RESEND_COUNT@));
    assert(OTEL_NAME@.len() != OTEL_STATUS@.len());
    assert(OTEL_NAME@.len() != HTTP_RESPONSE_STATUS_CODE@.len());
    assert(OTEL_NAME@.len() != RPC_GRPC_STATUS_CODE@.len());
    assert(OTEL_NAME@.len() != ERROR_TYPE@.len());
    assert(OTEL_NAME@.len() != SERVER_ADDRESS@.len());
    assert(OTEL_NAME@.len() != SERVER_PORT@.len());
    assert(OTEL_NAME@.len() != URL_FULL@.len());
    assert(OTEL_NAME@.len() != HTTP_REQUEST_RESEND_COUNT@.len());
    assert(OTEL_STATUS@.len() != HTTP_RESPONSE_STATUS_CODE@.len());
    assert(OTEL_STATUS@.len() != RPC_GRPC_STATUS_CODE@.len());
    assert(OTEL_STATUS@.len() != ERROR_TYPE@.len());
    assert(OTEL_STATUS@.len() != SERVER_ADDRESS@.len());
    assert(OTEL_STATUS@[0] != SERVER_PORT@[0]);
    assert(OTEL_STATUS@.len() != URL_FULL@.len());
    assert(OTEL_STATUS@.len() != HTTP_REQUEST_RESEND_COUNT@.len());
    assert(HTTP_RESPONSE_STATUS_CODE@.len() != RPC_GRPC_STATUS_CODE@.len());
    assert(HTTP_RESPONSE_STATUS_CODE@.len() != ERROR_TYPE@.len());
    assert(HTTP_RESPONSE_STATUS_CODE@.len() != SERVER_ADDRESS@.len());
    assert(HTTP_RESPONSE_STATUS_CODE@.len() != SERVER_PORT@.len());
    assert(HTTP_RESPONSE_STATUS_CODE@.len() != URL_FULL@.len());
    assert(HTTP_RESPONSE_STATUS_CODE@[7] != HTTP_REQUEST_RESEND_COUNT@[7]);
    assert(RPC_GRPC_STATUS_CODE@.len() != ERROR_TYPE@.len());
    assert(RPC_GRPC_STATUS_CODE@.len() != SERVER_ADDRESS@.len());
    assert(RPC_GRPC_STATUS_CODE@.len() != SERVER_PORT@.len());
    assert(RPC_GRPC_STATUS_CODE@.len() != URL_FULL@.len());
    assert(RPC_GRPC_STATUS_CODE@.len() != HTTP_REQUEST_RESEND_COUNT@.len());
    assert(ERROR_TYPE@.len() != SERVER_ADDRESS@.len());
    assert(ERROR_TYPE@.len() != SERVER_PORT@.len());
    assert(ERROR_TYPE@.len() != URL_FULL@.len());
    assert(ERROR_TYPE@.len() != HTTP_REQUEST_RESEND_COUNT@.len());
    assert(SERVER_ADDRESS@.len() != SERVER_PORT@.len());
    assert(SERVER_ADDRESS@.len() != URL_FULL@.len());
    assert(SERVER_ADDRESS@.len() != HTTP_REQUEST_RESEND_COUNT@.len());
    assert(SERVER_PORT@.len() != URL_FULL@.len());
    assert(SERVER_PORT@.len() != HTTP_REQUEST_RESEND_COUNT@.len());
    assert(URL_FULL@.len() != HTTP_REQUEST_RESEND_COUNT@.len());
}

/// Classifying the error that ended a request records its error type and
/// the status text on the span: `Unset`, `Ok` or `Error`.
pub proof fn lemma_client_request_error_recorded(
    name: Seq<char>,
    info: InstrumentationClientInfo,
    error_type: Seq<char>,
    status: OtelStatus,
)
    ensures
        ({
            let s = recorded(
                recorded(client_request_span_of(name, info), ERROR_TYPE@, str_attr(error_type)),
                OTEL_STATUS@,
                str_attr(otel_status_text(status)),
            );
            &&& holds(s, ERROR_TYPE@, str_attr(error_type))
            &&& holds(s, OTEL_STATUS@, str_attr(
                match status {
                    OtelStatus::Unset => "Unset"@,
                    OtelStatus::Success => "Ok"@,
                    OtelStatus::Error => "Error"@,
                },
            ))
            &&& holds(s, OTEL_NAME@, str_attr(name))
        }),
{
    reveal_strlit("error.type");
    reveal_strlit("otel.status");
    reveal_strlit("otel.name");
    lemma_client_request_span_created(name, info);
    let s0 = client_request_span_of(name, info);
    assert(s0.fields[7] == OTEL_STATUS@);
    assert(s0.fields.contains(OTEL_STATUS@));
    assert(s0.fields[10] == ERROR_TYPE@);
    assert(s0.fields.contains(ERROR_TYPE@));
    assert(ERROR_TYPE@.len() != OTEL_STATUS@.len());
    assert(OTEL_NAME@.len() != OTEL_STATUS@.len());
    assert(OTEL_NAME@.len() != ERROR_TYPE@.len());
}

} // verus!
