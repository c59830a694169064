//! The span of a logical client request (T3), named by its RPC, and its
//! enrichment with the transport's report.

use vstd::prelude::*;
use vstd::string::*;
use crate::attributes::{
    OTEL_NAME, OTEL_KIND, OTEL_KIND_CLIENT, RPC_SYSTEM, RPC_SERVICE, RPC_METHOD, URL_DOMAIN,
    GCP_CLIENT_SERVICE, GCP_CLIENT_VERSION, GCP_CLIENT_REPO, GCP_CLIENT_ARTIFACT,
    GCP_CLIENT_LANGUAGE, GCP_CLIENT_LANGUAGE_RUST, GCP_CLIENT_REPO_GOOGLEAPIS, OTEL_STATUS_CODE,
    OTEL_STATUS_DESCRIPTION, OTEL_STATUS_CODE_UNSET, OTEL_STATUS_CODE_OK, OTEL_STATUS_CODE_ERROR,
    HTTP_RESPONSE_STATUS_CODE, RPC_GRPC_STATUS_CODE, GRPC_STATUS, ERROR_TYPE, SERVER_ADDRESS,
    SERVER_PORT, URL_FULL, HTTP_REQUEST_RESEND_COUNT,
};
use crate::client_request::{entry_views, push_entry, push_str_entry, opt_string, string_value};
use crate::options::{InstrumentationClientInfo, RequestOptions, TransportSpanInfo};
use crate::span::{
    AttributeValue, AttrView, SpanRecord, SpanView, span_of, str_attr, int_attr, recorded,
    recorded_opt, opt_int_attr, holds, distinct_fields, lemma_created_span_reads,
};
use crate::text::{find_char, find_from, lemma_find_from, lemma_find_from_is, lemma_find_from_none, to_owned};

verus! {

/// The service and method of an RPC name: the text before and after its
/// first `/`, or `unknown_service` and the whole name when it has none.
pub open spec fn rpc_name_parts(name: Seq<char>) -> (Seq<char>, Seq<char>) {
    let i = find_from(name, '/', 0);
    if i >= 0 {
        (name.subrange(0, i), name.subrange(i + 1, name.len() as int))
    } else {
        ("unknown_service"@, name)
    }
}

/// An RPC name that holds a `/` is its service, a `/` and its method:
/// splitting it loses nothing, and the service holds no `/`.
pub proof fn lemma_rpc_name_split_rejoins(name: Seq<char>)
    requires
        name.contains('/'),
    ensures
        rpc_name_parts(name).0 + seq!['/'] + rpc_name_parts(name).1 == name,
        !rpc_name_parts(name).0.contains('/'),
{
    lemma_find_from(name, '/', 0);
    let i = find_from(name, '/', 0);
    if i == -1 {
        let k = choose|k: int| 0 <= k < name.len() && name[k] == '/';
        assert(name[k] != '/');
    }
    assert(name.subrange(0, i) + seq!['/'] + name.subrange(i + 1, name.len() as int) =~= name);
    if name.subrange(0, i).contains('/') {
        let k = choose|k: int| 0 <= k < i && name.subrange(0, i)[k] == '/';
        assert(name[k] == '/');
    }
}

/// Splits an RPC name into its service and method.
pub fn split_rpc_name(name: &str) -> (r: (String, String))
    ensures
        (r.0@, r.1@) == rpc_name_parts(name@),
{
    proof {
        lemma_find_from(name@, '/', 0);
    }
    match find_char(name, '/', 0) {
        Some(i) => {
            let n = name.unicode_len();
            let service = name.substring_char(0, i);
            let method = name.substring_char(i + 1, n);
            (to_owned(service), to_owned(method))
        },
        None => (to_owned("unknown_service"), to_owned(name)),
    }
}

/// One piece of optional client information as a span value.
pub open spec fn info_attr(
    info: Option<&InstrumentationClientInfo>,
    pick: spec_fn(InstrumentationClientInfo) -> &'static str,
) -> Option<AttrView> {
    match info {
        Some(i) => Some(str_attr(pick(*i)@)),
        None => None,
    }
}

/// The fields of a client request span for the RPC `name`, in declaration
/// order, with the values it starts with.
pub open spec fn rpc_request_entries(name: Seq<char>, info: Option<&InstrumentationClientInfo>) -> Seq<
    (Seq<char>, Option<AttrView>),
> {
    let parts = rpc_name_parts(name);
    seq![
        (OTEL_NAME@, Some(str_attr(name))),
        (OTEL_KIND@, Some(str_attr(OTEL_KIND_CLIENT@))),
        (RPC_SYSTEM@, Some(str_attr("google_cloud"@))),
        (RPC_SERVICE@, Some(str_attr(parts.0))),
        (RPC_METHOD@, Some(str_attr(parts.1))),
        (URL_DOMAIN@, info_attr(info, |i: InstrumentationClientInfo| i.default_host)),
        (GCP_CLIENT_SERVICE@, info_attr(info, |i: InstrumentationClientInfo| i.service_name)),
        (GCP_CLIENT_VERSION@, info_attr(info, |i: InstrumentationClientInfo| i.client_version)),
        (GCP_CLIENT_REPO@, Some(str_attr(GCP_CLIENT_REPO_GOOGLEAPIS@))),
        (GCP_CLIENT_ARTIFACT@, info_attr(info, |i: InstrumentationClientInfo| i.client_artifact)),
        (GCP_CLIENT_LANGUAGE@, Some(str_attr(GCP_CLIENT_LANGUAGE_RUST@))),
        (OTEL_STATUS_CODE@, Some(str_attr(OTEL_STATUS_CODE_UNSET@))),
        (OTEL_STATUS_DESCRIPTION@, None),
        (HTTP_RESPONSE_STATUS_CODE@, None),
        (RPC_GRPC_STATUS_CODE@, None),
        (GRPC_STATUS@, None),
        (ERROR_TYPE@, None),
        (SERVER_ADDRESS@, None),
        (SERVER_PORT@, None),
        (URL_FULL@, None),
        (HTTP_REQUEST_RESEND_COUNT@, None),
    ]
}

fn info_value(s: &'static str) -> (r: Option<AttributeValue>)
    ensures
        crate::span::opt_attr(r) == Some(str_attr(s@)),
{
    Some(AttributeValue::Str(to_owned(s)))
}

/// Creates the span of a logical client request for the RPC `rpc_name`
/// (`service/method`).
pub fn create_client_request_span(
    rpc_name: &str,
    _options: &RequestOptions,
    instrumentation: Option<&InstrumentationClientInfo>,
) -> (r: SpanRecord)
    ensures
        r@ == span_of("client_request"@, rpc_request_entries(rpc_name@, instrumentation)),
{
    let (service, method) = split_rpc_name(rpc_name);
    let (svc, ver, art, host) = match instrumentation {
        Some(i) => (
            info_value(i.service_name),
            info_value(i.client_version),
            info_value(i.client_artifact),
            info_value(i.default_host),
        ),
        None => (None, None, None, None),
    };
    let mut e: Vec<(&'static str, Option<AttributeValue>)> = Vec::new();
    push_str_entry(&mut e, OTEL_NAME, rpc_name);
    push_str_entry(&mut e, OTEL_KIND, OTEL_KIND_CLIENT);
    push_str_entry(&mut e, RPC_SYSTEM, "google_cloud");
    push_str_entry(&mut e, RPC_SERVICE, service.as_str());
    push_str_entry(&mut e, RPC_METHOD, method.as_str());
    push_entry(&mut e, URL_DOMAIN, host);
    push_entry(&mut e, GCP_CLIENT_SERVICE, svc);
    push_entry(&mut e, GCP_CLIENT_VERSION, ver);
    push_str_entry(&mut e, GCP_CLIENT_REPO, GCP_CLIENT_REPO_GOOGLEAPIS);
    push_entry(&mut e, GCP_CLIENT_ARTIFACT, art);
    push_str_entry(&mut e, GCP_CLIENT_LANGUAGE, GCP_CLIENT_LANGUAGE_RUST);
    push_str_entry(&mut e, OTEL_STATUS_CODE, OTEL_STATUS_CODE_UNSET);
    push_entry(&mut e, OTEL_STATUS_DESCRIPTION, None);
    push_entry(&mut e, HTTP_RESPONSE_STATUS_CODE, None);
    push_entry(&mut e, RPC_GRPC_STATUS_CODE, None);
    push_entry(&mut e, GRPC_STATUS, None);
    push_entry(&mut e, ERROR_TYPE, None);
    push_entry(&mut e, SERVER_ADDRESS, None);
    push_entry(&mut e, SERVER_PORT, None);
    push_entry(&mut e, URL_FULL, None);
    push_entry(&mut e, HTTP_REQUEST_RESEND_COUNT, None);
    assert(entry_views(e@) =~= rpc_request_entries(rpc_name@, instrumentation));
    SpanRecord::new(to_owned("client_request"), e)
}

/// The span `s` after it is enriched with the transport's report `info`:
/// the status code, the gRPC code (under both of its keys), the error type
/// with an `ERROR` status or else an `OK` status, the address, port, URL
/// and resend count, each when present.
pub open spec fn rpc_request_enriched(s: SpanView, info: Option<&TransportSpanInfo>) -> SpanView {
    match info {
        None => s,
        Some(i) => {
            let s1 = recorded_opt(
                s,
                HTTP_RESPONSE_STATUS_CODE@,
                opt_int_attr(
                    match i.http_status_code {
                        Some(c) => Some(c as int),
                        None => None,
                    },
                ),
            );
            let s2 = match i.rpc_grpc_status_code {
                Some(c) => recorded(
                    recorded(s1, RPC_GRPC_STATUS_CODE@, int_attr(c as int)),
                    GRPC_STATUS@,
                    int_attr(c as int),
                ),
                None => s1,
            };
            let s3 = match i.error_type {
                Some(e) => recorded(
                    recorded(s2, ERROR_TYPE@, str_attr(e@)),
                    OTEL_STATUS_CODE@,
                    str_attr(OTEL_STATUS_CODE_ERROR@),
                ),
                None => recorded(s2, OTEL_STATUS_CODE@, str_attr(OTEL_STATUS_CODE_OK@)),
            };
            let s4 = recorded_opt(s3, SERVER_ADDRESS@, opt_string(i.server_address));
            let s5 = recorded_opt(
                s4,
                SERVER_PORT@,
                opt_int_attr(
                    match i.server_port {
                        Some(c) => Some(c as int),
                        None => None,
                    },
                ),
            );
            let s6 = recorded_opt(s5, URL_FULL@, opt_string(i.url_full));
            recorded_opt(
                s6,
                HTTP_REQUEST_RESEND_COUNT@,
                opt_int_attr(
                    match i.request_resend_count {
                        Some(c) => Some(c as int),
                        None => None,
                    },
                ),
            )
        },
    }
}

/// Enriches the client request span with the transport's report.
pub fn enrich_client_request_span(span: &mut SpanRecord, transport_info: Option<&TransportSpanInfo>)
    ensures
        final(span)@ == rpc_request_enriched(old(span)@, transport_info),
{
    match transport_info {
        None => {},
        Some(info) => {
            span.record_opt(
                HTTP_RESPONSE_STATUS_CODE,
                match info.http_status_code {
                    Some(c) => Some(AttributeValue::Int(c as i64)),
                    None => None,
                },
            );
            match info.rpc_grpc_status_code {
                Some(c) => {
                    span.record(RPC_GRPC_STATUS_CODE, AttributeValue::Int(c as i64));
                    span.record(GRPC_STATUS, AttributeValue::Int(c as i64));
                },
                None => {},
            }
            match &info.error_type {
                Some(e) => {
                    span.record(ERROR_TYPE, AttributeValue::Str(e.clone()));
                    span.record(OTEL_STATUS_CODE, AttributeValue::Str(to_owned(OTEL_STATUS_CODE_ERROR)));
                },
                None => {
                    span.record(OTEL_STATUS_CODE, AttributeValue::Str(to_owned(OTEL_STATUS_CODE_OK)));
                },
            }
            span.record_opt(SERVER_ADDRESS, string_value(&info.server_address));
            span.record_opt(
                SERVER_PORT,
                match info.server_port {
                    Some(c) => Some(AttributeValue::Int(c as i64)),
                    None => None,
                },
            );
            span.record_opt(URL_FULL, string_value(&info.url_full));
            span.record_opt(
                HTTP_REQUEST_RESEND_COUNT,
                match info.request_resend_count {
                    Some(c) => Some(AttributeValue::Int(c)),
                    None => None,
                },
            );
        },
    }
}

/// The client request span declares each of its fields once.
proof fn lemma_rpc_request_fields(name: Seq<char>, info: Option<&InstrumentationClientInfo>)
    ensures
        distinct_fields(rpc_request_entries(name, info)),
        rpc_request_entries(name, info).len() == 21,
        rpc_request_entries(name, info)[0].0 == OTEL_NAME@,
        rpc_request_entries(name, info)[1].0 == OTEL_KIND@,
        rpc_request_entries(name, info)[2].0 == RPC_SYSTEM@,
        rpc_request_entries(name, info)[3].0 == RPC_SERVICE@,
        rpc_request_entries(name, info)[4].0 == RPC_METHOD@,
        rpc_request_entries(name, info)[5].0 == URL_DOMAIN@,
        rpc_request_entries(name, info)[6].0 == GCP_CLIENT_SERVICE@,
        rpc_request_entries(name, info)[7].0 == GCP_CLIENT_VERSION@,
        rpc_request_entries(name, info)[8].0 == GCP_CLIENT_REPO@,
        rpc_request_entries(name, info)[9].0 == GCP_CLIENT_ARTIFACT@,
        rpc_request_entries(name, info)[10].0 == GCP_CLIENT_LANGUAGE@,
        rpc_request_entries(name, info)[11].0 == OTEL_STATUS_CODE@,
        rpc_request_entries(name, info)[12].0 == OTEL_STATUS_DESCRIPTION@,
        rpc_request_entries(name, info)[13].0 == HTTP_RESPONSE_STATUS_CODE@,
        rpc_request_entries(name, info)[14].0 == RPC_GRPC_STATUS_CODE@,
        rpc_request_entries(name, info)[15].0 == GRPC_STATUS@,
        rpc_request_entries(name, info)[16].0 == ERROR_TYPE@,
        rpc_request_entries(name, info)[17].0 == SERVER_ADDRESS@,
        rpc_request_entries(name, info)[18].0 == SERVER_PORT@,
        rpc_request_entries(name, info)[19].0 == URL_FULL@,
        rpc_request_entries(name, info)[20].0 == HTTP_REQUEST_RESEND_COUNT@,
{
    reveal_strlit("error.type");
    reveal_strlit("gcp.client.artifact");
    reveal_strlit("gcp.client.language");
    reveal_strlit("gcp.client.repo");
    reveal_strlit("gcp.client.service");
    reveal_strlit("gcp.client.version");
    reveal_strlit("grpc.status");
    reveal_strlit("http.request.resend_count");
    reveal_strlit("http.response.status_code");
    reveal_strlit("otel.kind");
    reveal_strlit("otel.name");
    reveal_strlit("otel.status_code");
    reveal_strlit("otel.status_description");
    reveal_strlit("rpc.grpc.status_code");
    reveal_strlit("rpc.method");
    reveal_strlit("rpc.service");
    reveal_strlit("rpc.system");
    reveal_strlit("server.address");
    reveal_strlit("server.port");
    reveal_strlit("url.domain");
    reveal_strlit("url.full");
    let e = rpc_request_entries(name, info);
    assert(e[0].0 == OTEL_NAME@);
    assert(e[1].0 == OTEL_KIND@);
    assert(e[2].0 == RPC_SYSTEM@);
    assert(e[3].0 == RPC_SERVICE@);
    assert(e[4].0 == RPC_METHOD@);
    assert(e[5].0 == URL_DOMAIN@);
    assert(e[6].0 == GCP_CLIENT_SERVICE@);
    assert(e[7].0 == GCP_CLIENT_VERSION@);
    assert(e[8].0 == GCP_CLIENT_REPO@);
    assert(e[9].0 == GCP_CLIENT_ARTIFACT@);
    assert(e[10].0 == GCP_CLIENT_LANGUAGE@);
    assert(e[11].0 == OTEL_STATUS_CODE@);
    assert(e[12].0 == OTEL_STATUS_DESCRIPTION@);
    assert(e[13].0 == HTTP_RESPONSE_STATUS_CODE@);
    assert(e[14].0 == RPC_GRPC_STATUS_CODE@);
    assert(e[15].0 == GRPC_STATUS@);
    assert(e[16].0 == ERROR_TYPE@);
    assert(e[17].0 == SERVER_ADDRESS@);
    assert(e[18].0 == SERVER_PORT@);
    assert(e[19].0 == URL_FULL@);
    assert(e[20].0 == HTTP_REQUEST_RESEND_COUNT@);
    assert forall|i: int, j: int| 0 <= i < j < e.len() implies (#[trigger] e[i]).0 != (#[trigger] e[j]).0 by {
        if i == 0 && j == 1 {
            assert(OTEL_NAME@[5] != OTEL_KIND@[5]);
        } else if i == 0 && j == 2 {
            assert(OTEL_NAME@.len() != RPC_SYSTEM@.len());
        } else if i == 0 && j == 3 {
            assert(OTEL_NAME@.len() != RPC_SERVICE@.len());
        } else if i == 0 && j == 4 {
            assert(OTEL_NAME@.len() != RPC_METHOD@.len());
        } else if i == 0 && j == 5 {
            assert(OTEL_NAME@.len() != URL_DOMAIN@.len());
        } else if i == 0 && j == 6 {
            assert(OTEL_NAME@.len() != GCP_CLIENT_SERVICE@.len());
        } else if i == 0 && j == 7 {
            assert(OTEL_NAME@.len() != GCP_CLIENT_VERSION@.len());
        } else if i == 0 && j == 8 {
            assert(OTEL_NAME@.len() != GCP_CLIENT_REPO@.len());
        } else if i == 0 && j == 9 {
            assert(OTEL_NAME@.len() != GCP_CLIENT_ARTIFACT@.len());
        } else if i == 0 && j == 10 {
            assert(OTEL_NAME@.len() != GCP_CLIENT_LANGUAGE@.len());
        } else if i == 0 && j == 11 {
            assert(OTEL_NAME@.len() != OTEL_STATUS_CODE@.len());
        } else if i == 0 && j == 12 {
            assert(OTEL_NAME@.len() != OTEL_STATUS_DESCRIPTION@.len());
        } else if i == 0 && j == 13 {
            assert(OTEL_NAME@.len() != HTTP_RESPONSE_STATUS_CODE@.len());
        } else if i == 0 && j == 14 {
            assert(OTEL_NAME@.len() != RPC_GRPC_STATUS_CODE@.len());
        } else if i == 0 && j == 15 {
            assert(OTEL_NAME@.len() != GRPC_STATUS@.len());
        } else if i == 0 && j == 16 {
            assert(OTEL_NAME@.len() != ERROR_TYPE@.len());
        } else if i == 0 && j == 17 {
            assert(OTEL_NAME@.len() != SERVER_ADDRESS@.len());
        } else if i == 0 && j == 18 {
            assert(OTEL_NAME@.len() != SERVER_PORT@.len());
        } else if i == 0 && j == 19 {
            assert(OTEL_NAME@.len() != URL_FULL@.len());
        } else if i == 0 && j == 20 {
            assert(OTEL_NAME@.len() != HTTP_REQUEST_RESEND_COUNT@.len());
        } else if i == 1 && j == 2 {
            assert(OTEL_KIND@.len() != RPC_SYSTEM@.len());
        } else if i == 1 && j == 3 {
            assert(OTEL_KIND@.len() != RPC_SERVICE@.len());
        } else if i == 1 && j == 4 {
            assert(OTEL_KIND@.len() != RPC_METHOD@.len());
        } else if i == 1 && j == 5 {
            assert(OTEL_KIND@.len() != URL_DOMAIN@.len());
        } else if i == 1 && j == 6 {
            assert(OTEL_KIND@.len() != GCP_CLIENT_SERVICE@.len());
        } else if i == 1 && j == 7 {
            assert(OTEL_KIND@.len() != GCP_CLIENT_VERSION@.len());
        } else if i == 1 && j == 8 {
            assert(OTEL_KIND@.len() != GCP_CLIENT_REPO@.len());
        } else if i == 1 && j == 9 {
            assert(OTEL_KIND@.len() != GCP_CLIENT_ARTIFACT@.len());
        } else if i == 1 && j == 10 {
            assert(OTEL_KIND@.len() != GCP_CLIENT_LANGUAGE@.len());
        } else if i == 1 && j == 11 {
            assert(OTEL_KIND@.len() != OTEL_STATUS_CODE@.len());
        } else if i == 1 && j == 12 {
            assert(OTEL_KIND@.len() != OTEL_STATUS_DESCRIPTION@.len());
        } else if i == 1 && j == 13 {
            assert(OTEL_KIND@.len() != HTTP_RESPONSE_STATUS_CODE@.len());
        } else if i == 1 && j == 14 {
            assert(OTEL_KIND@.len() != RPC_GRPC_STATUS_CODE@.len());
        } else if i == 1 && j == 15 {
            assert(OTEL_KIND@.len() != GRPC_STATUS@.len());
        } else if i == 1 && j == 16 {
            assert(OTEL_KIND@.len() != ERROR_TYPE@.len());
        } else if i == 1 && j == 17 {
            assert(OTEL_KIND@.len() != SERVER_ADDRESS@.len());
        } else if i == 1 && j == 18 {
            assert(OTEL_KIND@.len() != SERVER_PORT@.len());
        } else if i == 1 && j == 19 {
            assert(OTEL_KIND@.len() != URL_FULL@.len());
        } else if i == 1 && j == 20 {
            assert(OTEL_KIND@.len() != HTTP_REQUEST_RESEND_COUNT@.len());
        } else if i == 2 && j == 3 {
            assert(RPC_SYSTEM@.len() != RPC_SERVICE@.len());
        } else if i == 2 && j == 4 {
            assert(RPC_SYSTEM@[4] != RPC_METHOD@[4]);
        } else if i == 2 && j == 5 {
            assert(RPC_SYSTEM@[0] != URL_DOMAIN@[0]);
        } else if i == 2 && j == 6 {
            assert(RPC_SYSTEM@.len() != GCP_CLIENT_SERVICE@.len());
        } else if i == 2 && j == 7 {
            assert(RPC_SYSTEM@.len() != GCP_CLIENT_VERSION@.len());
        } else if i == 2 && j == 8 {
            assert(RPC_SYSTEM@.len() != GCP_CLIENT_REPO@.len());
        } else if i == 2 && j == 9 {
            assert(RPC_SYSTEM@.len() != GCP_CLIENT_ARTIFACT@.len());
        } else if i == 2 && j == 10 {
            assert(RPC_SYSTEM@.len() != GCP_CLIENT_LANGUAGE@.len());
        } else if i == 2 && j == 11 {
            assert(RPC_SYSTEM@.len() != OTEL_STATUS_CODE@.len());
        } else if i == 2 && j == 12 {
            assert(RPC_SYSTEM@.len() != OTEL_STATUS_DESCRIPTION@.len());
        } else if i == 2 && j == 13 {
            assert(RPC_SYSTEM@.len() != HTTP_RESPONSE_STATUS_CODE@.len());
        } else if i == 2 && j == 14 {
            assert(RPC_SYSTEM@.len() != RPC_GRPC_STATUS_CODE@.len());
        } else if i == 2 && j == 15 {
            assert(RPC_SYSTEM@.len() != GRPC_STATUS@.len());
        } else if i == 2 && j == 16 {
            assert(RPC_SYSTEM@[0] != ERROR_TYPE@[0]);
        } else if i == 2 && j == 17 {
            assert(RPC_SYSTEM@.len() != SERVER_ADDRESS@.len());
        } else if i == 2 && j == 18 {
            assert(RPC_SYSTEM@.len() != SERVER_PORT@.len());
        } else if i == 2 && j == 19 {
            assert(RPC_SYSTEM@.len() != URL_FULL@.len());
        } else if i == 2 && j == 20 {
            assert(RPC_SYSTEM@.len() != HTTP_REQUEST_RESEND_COUNT@.len());
        } else if i == 3 && j == 4 {
            assert(RPC_SERVICE@.len() != RPC_METHOD@.len());
        } else if i == 3 && j == 5 {
            assert(RPC_SERVICE@.len() != URL_DOMAIN@.len());
        } else if i == 3 && j == 6 {
            assert(RPC_SERVICE@.len() != GCP_CLIENT_SERVICE@.len());
        } else if i == 3 && j == 7 {
            assert(RPC_SERVICE@.len() != GCP_CLIENT_VERSION@.len());
        } else if i == 3 && j == 8 {
            assert(RPC_SERVICE@.len() != GCP_CLIENT_REPO@.len());
        } else if i == 3 && j == 9 {
            assert(RPC_SERVICE@.len() != GCP_CLIENT_ARTIFACT@.len());
        } else if i == 3 && j == 10 {
            assert(RPC_SERVICE@.len() != GCP_CLIENT_LANGUAGE@.len());
        } else if i == 3 && j == 11 {
            assert(RPC_SERVICE@.len() != OTEL_STATUS_CODE@.len());
        } else if i == 3 && j == 12 {
            assert(RPC_SERVICE@.len() != OTEL_STATUS_DESCRIPTION@.len());
        } else if i == 3 && j == 13 {
            assert(RPC_SERVICE@.len() != HTTP_RESPONSE_STATUS_CODE@.len());
        } else if i == 3 && j == 14 {
            assert(RPC_SERVICE@.len() != RPC_GRPC_STATUS_CODE@.len());
        } else if i == 3 && j == 15 {
            assert(RPC_SERVICE@[0] != GRPC_STATUS@[0]);
        } else if i == 3 && j == 16 {
            assert(RPC_SERVICE@.len() != ERROR_TYPE@.len());
        } else if i == 3 && j == 17 {
            assert(RPC_SERVICE@.len() != SERVER_ADDRESS@.len());
        } else if i == 3 && j == 18 {
            assert(RPC_SERVICE@[0] != SERVER_PORT@[0]);
        } else if i == 3 && j == 19 {
            assert(RPC_SERVICE@.len() != URL_FULL@.len());
        } else if i == 3 && j == 20 {
            assert(RPC_SERVICE@.len() != HTTP_REQUEST_RESEND_COUNT@.len());
        } else if i == 4 && j == 5 {
            assert(RPC_METHOD@[0] != URL_DOMAIN@[0]);
        } else if i == 4 && j == 6 {
            assert(RPC_METHOD@.len() != GCP_CLIENT_SERVICE@.len());
        } else if i == 4 && j == 7 {
            assert(RPC_METHOD@.len() != GCP_CLIENT_VERSION@.len());
        } else if i == 4 && j == 8 {
            assert(RPC_METHOD@.len() != GCP_CLIENT_REPO@.len());
        } else if i == 4 && j == 9 {
            assert(RPC_METHOD@.len() != GCP_CLIENT_ARTIFACT@.len());
        } else if i == 4 && j == 10 {
            assert(RPC_METHOD@.len() != GCP_CLIENT_LANGUAGE@.len());
        } else if i == 4 && j == 11 {
            assert(RPC_METHOD@.len() != OTEL_STATUS_CODE@.len());
        } else if i == 4 && j == 12 {
            assert(RPC_METHOD@.len() != OTEL_STATUS_DESCRIPTION@.len());
        } else if i == 4 && j == 13 {
            assert(RPC_METHOD@.len() != HTTP_RESPONSE_STATUS_CODE@.len());
        } else if i == 4 && j == 14 {
            assert(RPC_METHOD@.len() != RPC_GRPC_STATUS_CODE@.len());
        } else if i == 4 && j == 15 {
            assert(RPC_METHOD@.len() != GRPC_STATUS@.len());
        } else if i == 4 && j == 16 {
            assert(RPC_METHOD@[0] != ERROR_TYPE@[0]);
        } else if i == 4 && j == 17 {
            assert(RPC_METHOD@.len() != SERVER_ADDRESS@.len());
        } else if i == 4 && j == 18 {
            assert(RPC_METHOD@.len() != SERVER_PORT@.len());
        } else if i == 4 && j == 19 {
            assert(RPC_METHOD@.len() != URL_FULL@.len());
        } else if i == 4 && j == 20 {
            assert(RPC_METHOD@.len() != HTTP_REQUEST_RESEND_COUNT@.len());
        } else if i == 5 && j == 6 {
            assert(URL_DOMAIN@.len() != GCP_CLIENT_SERVICE@.len());
        } else if i == 5 && j == 7 {
            assert(URL_DOMAIN@.len() != GCP_CLIENT_VERSION@.len());
        } else if i == 5 && j == 8 {
            assert(URL_DOMAIN@.len() != GCP_CLIENT_REPO@.len());
        } else if i == 5 && j == 9 {
            assert(URL_DOMAIN@.len() != GCP_CLIENT_ARTIFACT@.len());
        } else if i == 5 && j == 10 {
            assert(URL_DOMAIN@.len() != GCP_CLIENT_LANGUAGE@.len());
        } else if i == 5 && j == 11 {
            assert(URL_DOMAIN@.len() != OTEL_STATUS_CODE@.len());
        } else if i == 5 && j == 12 {
            assert(URL_DOMAIN@.len() != OTEL_STATUS_DESCRIPTION@.len());
        } else if i == 5 && j == 13 {
            assert(URL_DOMAIN@.len() != HTTP_RESPONSE_STATUS_CODE@.len());
        } else if i == 5 && j == 14 {
            assert(URL_DOMAIN@.len() != RPC_GRPC_STATUS_CODE@.len());
        } else if i == 5 && j == 15 {
            assert(URL_DOMAIN@.len() != GRPC_STATUS@.len());
        } else if i == 5 && j == 16 {
            assert(URL_DOMAIN@[0] != ERROR_TYPE@[0]);
        } else if i == 5 && j == 17 {
            assert(URL_DOMAIN@.len() != SERVER_ADDRESS@.len());
        } else if i == 5 && j == 18 {
            assert(URL_DOMAIN@.len() != SERVER_PORT@.len());
        } else if i == 5 && j == 19 {
            assert(URL_DOMAIN@.len() != URL_FULL@.len());
        } else if i == 5 && j == 20 {
            assert(URL_DOMAIN@.len() != HTTP_REQUEST_RESEND_COUNT@.len());
        } else if i == 6 && j == 7 {
            assert(GCP_CLIENT_SERVICE@[11] != GCP_CLIENT_VERSION@[11]);
        } else if i == 6 && j == 8 {
            assert(GCP_CLIENT_SERVICE@.len() != GCP_CLIENT_REPO@.len());
        } else if i == 6 && j == 9 {
            assert(GCP_CLIENT_SERVICE@.len() != GCP_CLIENT_ARTIFACT@.len());
        } else if i == 6 && j == 10 {
            assert(GCP_CLIENT_SERVICE@.len() != GCP_CLIENT_LANGUAGE@.len());
        } else if i == 6 && j == 11 {
            assert(GCP_CLIENT_SERVICE@.len() != OTEL_STATUS_CODE@.len());
        } else if i == 6 && j == 12 {
            assert(GCP_CLIENT_SERVICE@.len() != OTEL_STATUS_DESCRIPTION@.len());
        } else if i == 6 && j == 13 {
            assert(GCP_CLIENT_SERVICE@.len() != HTTP_RESPONSE_STATUS_CODE@.len());
        } else if i == 6 && j == 14 {
            assert(GCP_CLIENT_SERVICE@.len() != RPC_GRPC_STATUS_CODE@.len());
        } else if i == 6 && j == 15 {
            assert(GCP_CLIENT_SERVICE@.len() != GRPC_STATUS@.len());
        } else if i == 6 && j == 16 {
            assert(GCP_CLIENT_SERVICE@.len() != ERROR_TYPE@.len());
        } else if i == 6 && j == 17 {
            assert(GCP_CLIENT_SERVICE@.len() != SERVER_ADDRESS@.len());
        } else if i == 6 && j == 18 {
            assert(GCP_CLIENT_SERVICE@.len() != SERVER_PORT@.len());
        } else if i == 6 && j == 19 {
            assert(GCP_CLIENT_SERVICE@.len() != URL_FULL@.len());
        } else if i == 6 && j == 20 {
            assert(GCP_CLIENT_SERVICE@.len() != HTTP_REQUEST_RESEND_COUNT@.len());
        } else if i == 7 && j == 8 {
            assert(GCP_CLIENT_VERSION@.len() != GCP_CLIENT_REPO@.len());
        } else if i == 7 && j == 9 {
            assert(GCP_CLIENT_VERSION@.len() != GCP_CLIENT_ARTIFACT@.len());
        } else if i == 7 && j == 10 {
            assert(GCP_CLIENT_VERSION@.len() != GCP_CLIENT_LANGUAGE@.len());
        } else if i == 7 && j == 11 {
            assert(GCP_CLIENT_VERSION@.len() != OTEL_STATUS_CODE@.len());
        } else if i == 7 && j == 12 {
            assert(GCP_CLIENT_VERSION@.len() != OTEL_STATUS_DESCRIPTION@.len());
        } else if i == 7 && j == 13 {
            assert(GCP_CLIENT_VERSION@.len() != HTTP_RESPONSE_STATUS_CODE@.len());
        } else if i == 7 && j == 14 {
            assert(GCP_CLIENT_VERSION@.len() != RPC_GRPC_STATUS_CODE@.len());
        } else if i == 7 && j == 15 {
            assert(GCP_CLIENT_VERSION@.len() != GRPC_STATUS@.len());
        } else if i == 7 && j == 16 {
            assert(GCP_CLIENT_VERSION@.len() != ERROR_TYPE@.len());
        } else if i == 7 && j == 17 {
            assert(GCP_CLIENT_VERSION@.len() != SERVER_ADDRESS@.len());
        } else if i == 7 && j == 18 {
            assert(GCP_CLIENT_VERSION@.len() != SERVER_PORT@.len());
        } else if i == 7 && j == 19 {
            assert(GCP_CLIENT_VERSION@.len() != URL_FULL@.len());
        } else if i == 7 && j == 20 {
            assert(GCP_CLIENT_VERSION@.len() != HTTP_REQUEST_RESEND_COUNT@.len());
        } else if i == 8 && j == 9 {
            assert(GCP_CLIENT_REPO@.len() != GCP_CLIENT_ARTIFACT@.len());
        } else if i == 8 && j == 10 {
            assert(GCP_CLIENT_REPO@.len() != GCP_CLIENT_LANGUAGE@.len());
        } else if i == 8 && j == 11 {
            assert(GCP_CLIENT_REPO@.len() != OTEL_STATUS_CODE@.len());
        } else if i == 8 && j == 12 {
            assert(GCP_CLIENT_REPO@.len() != OTEL_STATUS_DESCRIPTION@.len());
        } else if i == 8 && j == 13 {
            assert(GCP_CLIENT_REPO@.len() != HTTP_RESPONSE_STATUS_CODE@.len());
        } else if i == 8 && j == 14 {
            assert(GCP_CLIENT_REPO@.len() != RPC_GRPC_STATUS_CODE@.len());
        } else if i == 8 && j == 15 {
            assert(GCP_CLIENT_REPO@.len() != GRPC_STATUS@.len());
        } else if i == 8 && j == 16 {
            assert(GCP_CLIENT_REPO@.len() != ERROR_TYPE@.len());
        } else if i == 8 && j == 17 {
            assert(GCP_CLIENT_REPO@.len() != SERVER_ADDRESS@.len());
        } else if i == 8 && j == 18 {
            assert(GCP_CLIENT_REPO@.len() != SERVER_PORT@.len());
        } else if i == 8 && j == 19 {
            assert(GCP_CLIENT_REPO@.len() != URL_FULL@.len());
        } else if i == 8 && j == 20 {
            assert(GCP_CLIENT_REPO@.len() != HTTP_REQUEST_RESEND_COUNT@.len());
        } else if i == 9 && j == 10 {
            assert(GCP_CLIENT_ARTIFACT@[11] != GCP_CLIENT_LANGUAGE@[11]);
        } else if i == 9 && j == 11 {
            assert(GCP_CLIENT_ARTIFACT@.len() != OTEL_STATUS_CODE@.len());
        } else if i == 9 && j == 12 {
            assert(GCP_CLIENT_ARTIFACT@.len() != OTEL_STATUS_DESCRIPTION@.len());
        } else if i == 9 && j == 13 {
            assert(GCP_CLIENT_ARTIFACT@.len() != HTTP_RESPONSE_STATUS_CODE@.len());
        } else if i == 9 && j == 14 {
            assert(GCP_CLIENT_ARTIFACT@.len() != RPC_GRPC_STATUS_CODE@.len());
        } else if i == 9 && j == 15 {
            assert(GCP_CLIENT_ARTIFACT@.len() != GRPC_STATUS@.len());
        } else if i == 9 && j == 16 {
            assert(GCP_CLIENT_ARTIFACT@.len() != ERROR_TYPE@.len());
        } else if i == 9 && j == 17 {
            assert(GCP_CLIENT_ARTIFACT@.len() != SERVER_ADDRESS@.len());
        } else if i == 9 && j == 18 {
            assert(GCP_CLIENT_ARTIFACT@.len() != SERVER_PORT@.len());
        } else if i == 9 && j == 19 {
            assert(GCP_CLIENT_ARTIFACT@.len() != URL_FULL@.len());
        } else if i == 9 && j == 20 {
            assert(GCP_CLIENT_ARTIFACT@.len() != HTTP_REQUEST_RESEND_COUNT@.len());
        } else if i == 10 && j == 11 {
            assert(GCP_CLIENT_LANGUAGE@.len() != OTEL_STATUS_CODE@.len());
        } else if i == 10 && j == 12 {
            assert(GCP_CLIENT_LANGUAGE@.len() != OTEL_STATUS_DESCRIPTION@.len());
        } else if i == 10 && j == 13 {
            assert(GCP_CLIENT_LANGUAGE@.len() != HTTP_RESPONSE_STATUS_CODE@.len());
        } else if i == 10 && j == 14 {
            assert(GCP_CLIENT_LANGUAGE@.len() != RPC_GRPC_STATUS_CODE@.len());
        } else if i == 10 && j == 15 {
            assert(GCP_CLIENT_LANGUAGE@.len() != GRPC_STATUS@.len());
        } else if i == 10 && j == 16 {
            assert(GCP_CLIENT_LANGUAGE@.len() != ERROR_TYPE@.len());
        } else if i == 10 && j == 17 {
            assert(GCP_CLIENT_LANGUAGE@.len() != SERVER_ADDRESS@.len());
        } else if i == 10 && j == 18 {
            assert(GCP_CLIENT_LANGUAGE@.len() != SERVER_PORT@.len());
        } else if i == 10 && j == 19 {
            assert(GCP_CLIENT_LANGUAGE@.len() != URL_FULL@.len());
        } else if i == 10 && j == 20 {
            assert(GCP_CLIENT_LANGUAGE@.len() != HTTP_REQUEST_RESEND_COUNT@.len());
        } else if i == 11 && j == 12 {
            assert(OTEL_STATUS_CODE@.len() != OTEL_STATUS_DESCRIPTION@.len());
        } else if i == 11 && j == 13 {
            assert(OTEL_STATUS_CODE@.len() != HTTP_RESPONSE_STATUS_CODE@.len());
        } else if i == 11 && j == 14 {
            assert(OTEL_STATUS_CODE@.len() != RPC_GRPC_STATUS_CODE@.len());
        } else if i == 11 && j == 15 {
            assert(OTEL_STATUS_CODE@.len() != GRPC_STATUS@.len());
        } else if i == 11 && j == 16 {
            assert(OTEL_STATUS_CODE@.len() != ERROR_TYPE@.len());
        } else if i == 11 && j == 17 {
            assert(OTEL_STATUS_CODE@.len() != SERVER_ADDRESS@.len());
        } else if i == 11 && j == 18 {
            assert(OTEL_STATUS_CODE@.len() != SERVER_PORT@.len());
        } else if i == 11 && j == 19 {
            assert(OTEL_STATUS_CODE@.len() != URL_FULL@.len());
        } else if i == 11 && j == 20 {
            assert(OTEL_STATUS_CODE@.len() != HTTP_REQUEST_RESEND_COUNT@.len());
        } else if i == 12 && j == 13 {
            assert(OTEL_STATUS_DESCRIPTION@.len() != HTTP_RESPONSE_STATUS_CODE@.len());
        } else if i == 12 && j == 14 {
            assert(OTEL_STATUS_DESCRIPTION@.len() != RPC_GRPC_STATUS_CODE@.len());
        } else if i == 12 && j == 15 {
            assert(OTEL_STATUS_DESCRIPTION@.len() != GRPC_STATUS@.len());
        } else if i == 12 && j == 16 {
            assert(OTEL_STATUS_DESCRIPTION@.len() != ERROR_TYPE@.len());
        } else if i == 12 && j == 17 {
            assert(OTEL_STATUS_DESCRIPTION@.len() != SERVER_ADDRESS@.len());
        } else if i == 12 && j == 18 {
            assert(OTEL_STATUS_DESCRIPTION@.len() != SERVER_PORT@.len());
        } else if i == 12 && j == 19 {
            assert(OTEL_STATUS_DESCRIPTION@.len() != URL_FULL@.len());
        } else if i == 12 && j == 20 {
            assert(OTEL_STATUS_DESCRIPTION@.len() != HTTP_REQUEST_RESEND_COUNT@.len());
        } else if i == 13 && j == 14 {
            assert(HTTP_RESPONSE_STATUS_CODE@.len() != RPC_GRPC_STATUS_CODE@.len());
        } else if i == 13 && j == 15 {
            assert(HTTP_RESPONSE_STATUS_CODE@.len() != GRPC_STATUS@.len());
        } else if i == 13 && j == 16 {
            assert(HTTP_RESPONSE_STATUS_CODE@.len() != ERROR_TYPE@.len());
        } else if i == 13 && j == 17 {
            assert(HTTP_RESPONSE_STATUS_CODE@.len() != SERVER_ADDRESS@.len());
        } else if i == 13 && j == 18 {
            assert(HTTP_RESPONSE_STATUS_CODE@.len() != SERVER_PORT@.len());
        } else if i == 13 && j == 19 {
            assert(HTTP_RESPONSE_STATUS_CODE@.len() != URL_FULL@.len());
        } else if i == 13 && j == 20 {
            assert(HTTP_RESPONSE_STATUS_CODE@[7] != HTTP_REQUEST_RESEND_COUNT@[7]);
        } else if i == 14 && j == 15 {
            assert(RPC_GRPC_STATUS_CODE@.len() != GRPC_STATUS@.len());
        } else if i == 14 && j == 16 {
            assert(RPC_GRPC_STATUS_CODE@.len() != ERROR_TYPE@.len());
        } else if i == 14 && j == 17 {
            assert(RPC_GRPC_STATUS_CODE@.len() != SERVER_ADDRESS@.len());
        } else if i == 14 && j == 18 {
            assert(RPC_GRPC_STATUS_CODE@.len() != SERVER_PORT@.len());
        } else if i == 14 && j == 19 {
            assert(RPC_GRPC_STATUS_CODE@.len() != URL_FULL@.len());
        } else if i == 14 && j == 20 {
            assert(RPC_GRPC_STATUS_CODE@.len() != HTTP_REQUEST_RESEND_COUNT@.len());
        } else if i == 15 && j == 16 {
            assert(GRPC_STATUS@.len() != ERROR_TYPE@.len());
        } else if i == 15 && j == 17 {
            assert(GRPC_STATUS@.len() != SERVER_ADDRESS@.len());
        } else if i == 15 && j == 18 {
            assert(GRPC_STATUS@[0] != SERVER_PORT@[0]);
        } else if i == 15 && j == 19 {
            assert(GRPC_STATUS@.len() != URL_FULL@.len());
        } else if i == 15 && j == 20 {
            assert(GRPC_STATUS@.len() != HTTP_REQUEST_RESEND_COUNT@.len());
        } else if i == 16 && j == 17 {
            assert(ERROR_TYPE@.len() != SERVER_ADDRESS@.len());
        } else if i == 16 && j == 18 {
            assert(ERROR_TYPE@.len() != SERVER_PORT@.len());
        } else if i == 16 && j == 19 {
            assert(ERROR_TYPE@.len() != URL_FULL@.len());
        } else if i == 16 && j == 20 {
            assert(ERROR_TYPE@.len() != HTTP_REQUEST_RESEND_COUNT@.len());
        } else if i == 17 && j == 18 {
            assert(SERVER_ADDRESS@.len() != SERVER_PORT@.len());
        } else if i == 17 && j == 19 {
            assert(SERVER_ADDRESS@.len() != URL_FULL@.len());
        } else if i == 17 && j == 20 {
            assert(SERVER_ADDRESS@.len() != HTTP_REQUEST_RESEND_COUNT@.len());
        } else if i == 18 && j == 19 {
            assert(SERVER_PORT@.len() != URL_FULL@.len());
        } else if i == 18 && j == 20 {
            assert(SERVER_PORT@.len() != HTTP_REQUEST_RESEND_COUNT@.len());
        } else if i == 19 && j == 20 {
            assert(URL_FULL@.len() != HTTP_REQUEST_RESEND_COUNT@.len());
        } else {
            assert(false);
        }
    }
}

/// The span that `create_client_request_span` makes for the RPC `name`.
pub open spec fn client_request_span(name: Seq<char>, info: Option<&InstrumentationClientInfo>) -> SpanView {
    span_of("client_request"@, rpc_request_entries(name, info))
}

/// The client request span of the RPC `name` holds: the name, kind
/// `client`, system `google_cloud`; the service and method, which are the
/// text before and after the first `/` of the name, or `unknown_service`
/// and the whole name when it has none; the client information when there
/// is any; the repository, language `rust` and status code `UNSET`; and no
/// response status, gRPC code or error type yet.
pub proof fn lemma_client_request_span_attributes(name: Seq<char>, info: Option<&InstrumentationClientInfo>)
    ensures
        holds(client_request_span(name, info), OTEL_NAME@, str_attr(name)),
        holds(client_request_span(name, info), OTEL_KIND@, str_attr("client"@)),
        holds(client_request_span(name, info), RPC_SYSTEM@, str_attr("google_cloud"@)),
        forall|i: int|
            0 <= i < name.len() && name[i] == '/' && (forall|j: int| 0 <= j < i ==> name[j] != '/')
                ==> #[trigger] holds(client_request_span(name, info), RPC_SERVICE@, str_attr(name.subrange(0, i)))
                && holds(client_request_span(name, info), RPC_METHOD@, str_attr(name.subrange(i + 1, name.len() as int))),
        !name.contains('/') ==> holds(client_request_span(name, info), RPC_SERVICE@, str_attr("unknown_service"@)),
        !name.contains('/') ==> holds(client_request_span(name, info), RPC_METHOD@, str_attr(name)),
        info matches Some(c) ==> holds(client_request_span(name, info), URL_DOMAIN@, str_attr(c.default_host@)),
        info matches Some(c) ==> holds(client_request_span(name, info), GCP_CLIENT_SERVICE@, str_attr(c.service_name@)),
        info matches Some(c) ==> holds(client_request_span(name, info), GCP_CLIENT_VERSION@, str_attr(c.client_version@)),
        info matches Some(c) ==> holds(client_request_span(name, info), GCP_CLIENT_ARTIFACT@, str_attr(c.client_artifact@)),
        info is None ==> !client_request_span(name, info).values.dom().contains(URL_DOMAIN@),
        info is None ==> !client_request_span(name, info).values.dom().contains(GCP_CLIENT_SERVICE@),
        info is None ==> !client_request_span(name, info).values.dom().contains(GCP_CLIENT_VERSION@),
        info is None ==> !client_request_span(name, info).values.dom().contains(GCP_CLIENT_ARTIFACT@),
        holds(client_request_span(name, info), GCP_CLIENT_REPO@, str_attr("googleapis/google-cloud-rust"@)),
        holds(client_request_span(name, info), GCP_CLIENT_LANGUAGE@, str_attr("rust"@)),
        holds(client_request_span(name, info), OTEL_STATUS_CODE@, str_attr("UNSET"@)),
        !client_request_span(name, info).values.dom().contains(HTTP_RESPONSE_STATUS_CODE@),
        !client_request_span(name, info).values.dom().contains(RPC_GRPC_STATUS_CODE@),
        !client_request_span(name, info).values.dom().contains(GRPC_STATUS@),
        !client_request_span(name, info).values.dom().contains(ERROR_TYPE@),
{
    reveal_strlit("googleapis/google-cloud-rust");
    reveal_strlit("rust");
    reveal_strlit("UNSET");
    reveal_strlit("client");
    lemma_rpc_request_fields(name, info);
    let e = rpc_request_entries(name, info);
    lemma_created_span_reads("client_request"@, e);
    let _ = e[0];
    let _ = e[1];
    let _ = e[2];
    let _ = e[3];
    let _ = e[4];
    let _ = e[5];
    let _ = e[6];
    let _ = e[7];
    let _ = e[8];
    let _ = e[9];
    let _ = e[10];
    let _ = e[11];
    let _ = e[12];
    let _ = e[13];
    let _ = e[14];
    let _ = e[15];
    let _ = e[16];
    let _ = e[17];
    let _ = e[18];
    let _ = e[19];
    let _ = e[20];
    assert forall|i: int|
        0 <= i < name.len() && name[i] == '/' && (forall|j: int| 0 <= j < i ==> name[j] != '/') implies #[trigger] holds(
        span_of("client_request"@, e),
        RPC_SERVICE@,
        str_attr(name.subrange(0, i)),
    ) && holds(span_of("client_request"@, e), RPC_METHOD@, str_attr(name.subrange(i + 1, name.len() as int))) by {
        lemma_find_from_is(name, '/', 0, i);
    }
    if !name.contains('/') {
        assert forall|k: int| 0 <= k < name.len() implies name[k] != '/' by {
            if name[k] == '/' {
                assert(name.contains('/'));
            }
        }
        lemma_find_from_none(name, '/', 0);
    }
}

/// Enriching the client request span with a transport report records each
/// piece of the report that is present, under its key: the response status,
/// the address, the port, the URL and the resend count; an absent response
/// status stays absent; and the span keeps its name.
pub proof fn lemma_enriched_span_carries_report(
    name: Seq<char>,
    info: Option<&InstrumentationClientInfo>,
    ti: &TransportSpanInfo,
)
    ensures
        ({
            let s = rpc_request_enriched(
                span_of("client_request"@, rpc_request_entries(name, info)),
                Some(ti),
            );
            &&& holds(s, OTEL_NAME@, str_attr(name))
            &&& (ti.http_status_code matches Some(c) ==> holds(s, HTTP_RESPONSE_STATUS_CODE@, int_attr(c as int)))
            &&& (ti.http_status_code is None ==> !s.values.dom().contains(HTTP_RESPONSE_STATUS_CODE@))
            &&& (ti.server_address matches Some(a) ==> holds(s, SERVER_ADDRESS@, str_attr(a@)))
            &&& (ti.server_port matches Some(p) ==> holds(s, SERVER_PORT@, int_attr(p as int)))
            &&& (ti.url_full matches Some(u) ==> holds(s, URL_FULL@, str_attr(u@)))
            &&& (ti.request_resend_count matches Some(n) ==> holds(s, HTTP_REQUEST_RESEND_COUNT@, int_attr(n as int)))
        }),
{
    reveal_strlit("error.type");
    reveal_strlit("grpc.status");
    reveal_strlit("http.request.resend_count");
    reveal_strlit("http.response.status_code");
    reveal_strlit("otel.name");
    reveal_strlit("otel.status_code");
    reveal_strlit("rpc.grpc.status_code");
    reveal_strlit("server.address");
    reveal_strlit("server.port");
    reveal_strlit("url.full");
    lemma_client_request_span_attributes(name, info);
    lemma_rpc_request_fields(name, info);
    let s0 = span_of("client_request"@, rpc_request_entries(name, info));
    assert(s0.fields[13] == HTTP_RESPONSE_STATUS_CODE@);
    assert(s0.fields.contains(HTTP_RESPONSE_STATUS_CODE@));
    assert(s0.fields[14] == RPC_GRPC_STATUS_CODE@);
    assert(s0.fields.contains(RPC_GRPC_STATUS_CODE@));
    assert(s0.fields[15] == GRPC_STATUS@);
    assert(s0.fields.contains(GRPC_STATUS@));
    assert(s0.fields[16] == ERROR_TYPE@);
    assert(s0.fields.contains(ERROR_TYPE@));
    assert(s0.fields[11] == OTEL_STATUS_CODE@);
    assert(s0.fields.contains(OTEL_STATUS_CODE@));
    assert(s0.fields[17] == SERVER_ADDRESS@);
    assert(s0.fields.contains(SERVER_ADDRESS@));
    assert(s0.fields[18] == SERVER_PORT@);
    assert(s0.fields.contains(SERVER_PORT@));
    assert(s0.fields[19] == URL_FULL@);
    assert(s0.fields.contains(URL_FULL@));
    assert(s0.fields[20] == HTTP_REQUEST_RESEND_COUNT@);
    assert(s0.fields.contains(HTTP_REQUEST_RESEND_COUNT@));
    assert(OTEL_NAME@.len() != HTTP_RESPONSE_STATUS_CODE@.len());
    assert(OTEL_NAME@.len() != RPC_GRPC_STATUS_CODE@.len());
    assert(OTEL_NAME@.len() != GRPC_STATUS@.len());
    assert(OTEL_NAME@.len() != ERROR_TYPE@.len());
    assert(OTEL_NAME@.len() != OTEL_STATUS_CODE@.len());
    assert(OTEL_NAME@.len() != SERVER_ADDRESS@.len());
    assert(OTEL_NAME@.len() != SERVER_PORT@.len());
    assert(OTEL_NAME@.len() != URL_FULL@.len());
    assert(OTEL_NAME@.len() != HTTP_REQUEST_RESEND_COUNT@.len());
    assert(HTTP_RESPONSE_STATUS_CODE@.len() != RPC_GRPC_STATUS_CODE@.len());
    assert(HTTP_RESPONSE_STATUS_CODE@.len() != GRPC_STATUS@.len());
    assert(HTTP_RESPONSE_STATUS_CODE@.len() != ERROR_TYPE@.len());
    assert(HTTP_RESPONSE_STATUS_CODE@.len() != OTEL_STATUS_CODE@.len());
    assert(HTTP_RESPONSE_STATUS_CODE@.len() != SERVER_ADDRESS@.len());
    assert(HTTP_RESPONSE_STATUS_CODE@.len() != SERVER_PORT@.len());
    assert(HTTP_RESPONSE_STATUS_CODE@.len() != URL_FULL@.len());
    assert(HTTP_RESPONSE_STATUS_CODE@[7] != HTTP_REQUEST_RESEND_COUNT@[7]);
    assert(RPC_GRPC_STATUS_CODE@.len() != GRPC_STATUS@.len());
    assert(RPC_GRPC_STATUS_CODE@.len() != ERROR_TYPE@.len());
    assert(RPC_GRPC_STATUS_CODE@.len() != OTEL_STATUS_CODE@.len());
    assert(RPC_GRPC_STATUS_CODE@.len() != SERVER_ADDRESS@.len());
    assert(RPC_GRPC_STATUS_CODE@.len() != SERVER_PORT@.len());
    assert(RPC_GRPC_STATUS_CODE@.len() != URL_FULL@.len());
    assert(RPC_GRPC_STATUS_CODE@.len() != HTTP_REQUEST_RESEND_COUNT@.len());
    assert(GRPC_STATUS@.len() != ERROR_TYPE@.len());
    assert(GRPC_STATUS@.len() != OTEL_STATUS_CODE@.len());
    assert(GRPC_STATUS@.len() != SERVER_ADDRESS@.len());
    assert(GRPC_STATUS@[0] != SERVER_PORT@[0]);
    assert(GRPC_STATUS@.len() != URL_FULL@.len());
    assert(GRPC_STATUS@.len() != HTTP_REQUEST_RESEND_COUNT@.len());
    assert(ERROR_TYPE@.len() != OTEL_STATUS_CODE@.len());
    assert(ERROR_TYPE@.len() != SERVER_ADDRESS@.len());
    assert(ERROR_TYPE@.len() != SERVER_PORT@.len());
    assert(ERROR_TYPE@.len() != URL_FULL@.len());
    assert(ERROR_TYPE@.len() != HTTP_REQUEST_RESEND_COUNT@.len());
    assert(OTEL_STATUS_CODE@.len() != SERVER_ADDRESS@.len());
    assert(OTEL_STATUS_CODE@.len() != SERVER_PORT@.len());
    assert(OTEL_STATUS_CODE@.len() != URL_FULL@.len());
    assert(OTEL_STATUS_CODE@.len() != HTTP_REQUEST_RESEND_COUNT@.len());
    assert(SERVER_ADDRESS@.len() != SERVER_PORT@.len());
    assert(SERVER_ADDRESS@.len() != URL_FULL@.len());
    assert(SERVER_ADDRESS@.len() != HTTP_REQUEST_RESEND_COUNT@.len());
    assert(SERVER_PORT@.len() != URL_FULL@.len());
    assert(SERVER_PORT@.len() != HTTP_REQUEST_RESEND_COUNT@.len());
    assert(URL_FULL@.len() != HTTP_REQUEST_RESEND_COUNT@.len());
}

/// A transport report that carries a gRPC status code leaves that code on
/// the enriched client request span, under both `rpc.grpc.status_code` and
/// `grpc.status`, whether or not the report carries an error type.
pub proof fn lemma_grpc_code_recorded(
    name: Seq<char>,
    info: Option<&InstrumentationClientInfo>,
    ti: &TransportSpanInfo,
)
    ensures
        ti.rpc_grpc_status_code matches Some(c) ==> ({
            let s = rpc_request_enriched(
                span_of("client_request"@, rpc_request_entries(name, info)),
                Some(ti),
            );
            &&& s.values.dom().contains(RPC_GRPC_STATUS_CODE@)
            &&& s.values[RPC_GRPC_STATUS_CODE@] == int_attr(c as int)
            &&& s.values.dom().contains(GRPC_STATUS@)
            &&& s.values[GRPC_STATUS@] == int_attr(c as int)
        }),
{
    reveal_strlit("error.type");
    reveal_strlit("otel.status_code");
    reveal_strlit("server.address");
    reveal_strlit("server.port");
    reveal_strlit("url.full");
    reveal_strlit("http.request.resend_count");
    reveal_strlit("rpc.grpc.status_code");
    reveal_strlit("grpc.status");
    reveal_strlit("http.response.status_code");
    let s0 = span_of("client_request"@, rpc_request_entries(name, info));
    assert(s0.fields[14] == RPC_GRPC_STATUS_CODE@);
    assert(s0.fields[15] == GRPC_STATUS@);
    assert(s0.fields.contains(RPC_GRPC_STATUS_CODE@));
    assert(s0.fields.contains(GRPC_STATUS@));
    assert(RPC_GRPC_STATUS_CODE@.len() != ERROR_TYPE@.len());
    assert(RPC_GRPC_STATUS_CODE@.len() != OTEL_STATUS_CODE@.len());
    assert(RPC_GRPC_STATUS_CODE@.len() != SERVER_ADDRESS@.len());
    assert(RPC_GRPC_STATUS_CODE@.len() != SERVER_PORT@.len());
    assert(RPC_GRPC_STATUS_CODE@.len() != URL_FULL@.len());
    assert(RPC_GRPC_STATUS_CODE@.len() != HTTP_REQUEST_RESEND_COUNT@.len());
    assert(GRPC_STATUS@.len() != ERROR_TYPE@.len());
    assert(GRPC_STATUS@.len() != OTEL_STATUS_CODE@.len());
    assert(GRPC_STATUS@.len() != SERVER_ADDRESS@.len());
    assert(GRPC_STATUS@[0] != SERVER_PORT@[0]);
    assert(GRPC_STATUS@.len() != URL_FULL@.len());
    assert(GRPC_STATUS@.len() != HTTP_REQUEST_RESEND_COUNT@.len());
    assert(GRPC_STATUS@.len() != RPC_GRPC_STATUS_CODE@.len());
}

/// After a client request span is enriched with a transport report, its
/// status code reports `ERROR` when the report carries an error type and
/// `OK` otherwise, and the error type is the report's.
pub proof fn lemma_status_follows_error_type(
    name: Seq<char>,
    info: Option<&InstrumentationClientInfo>,
    ti: &TransportSpanInfo,
)
    ensures
        ({
            let s = rpc_request_enriched(
                span_of("client_request"@, rpc_request_entries(name, info)),
                Some(ti),
            );
            &&& s.values.dom().contains(OTEL_STATUS_CODE@)
            &&& s.values[OTEL_STATUS_CODE@] == str_attr(
                if ti.error_type is Some {
                    OTEL_STATUS_CODE_ERROR@
                } else {
                    OTEL_STATUS_CODE_OK@
                },
            )
            &&& ti.error_type matches Some(e) ==> s.values.dom().contains(ERROR_TYPE@)
                && s.values[ERROR_TYPE@] == str_attr(e@)
        }),
{
    reveal_strlit("otel.status_code");
    reveal_strlit("error.type");
    reveal_strlit("server.address");
    reveal_strlit("server.port");
    reveal_strlit("url.full");
    reveal_strlit("http.request.resend_count");
    reveal_strlit("rpc.grpc.status_code");
    reveal_strlit("grpc.status");
    reveal_strlit("http.response.status_code");
    let entries = rpc_request_entries(name, info);
    let s0 = span_of("client_request"@, entries);
    assert(s0.fields[11] == OTEL_STATUS_CODE@);
    assert(s0.fields[16] == ERROR_TYPE@);
    assert(s0.fields.contains(OTEL_STATUS_CODE@));
    assert(s0.fields.contains(ERROR_TYPE@));
    assert(OTEL_STATUS_CODE@ != SERVER_ADDRESS@);
    assert(OTEL_STATUS_CODE@ != SERVER_PORT@);
    assert(OTEL_STATUS_CODE@ != URL_FULL@);
    assert(OTEL_STATUS_CODE@ != HTTP_REQUEST_RESEND_COUNT@);
    assert(ERROR_TYPE@ != OTEL_STATUS_CODE@);
    assert(ERROR_TYPE@ != SERVER_ADDRESS@);
    assert(ERROR_TYPE@ != SERVER_PORT@);
    assert(ERROR_TYPE@ != URL_FULL@);
    assert(ERROR_TYPE@ != HTTP_REQUEST_RESEND_COUNT@);
}

} // verus!
