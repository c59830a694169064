//! The attributes of an HTTP request attempt, gathered before it is sent.

use vstd::prelude::*;
use crate::options::{InstrumentationClientInfo, RequestOptions};
use crate::text::{to_owned, concat};
use crate::url::{ParsedUrl, UrlView, port_or_known_default, default_port};

verus! {

/// The span name of an HTTP request: the method, followed by the URL path
/// template when there is one.
pub open spec fn http_span_name(method: Seq<char>, template: Option<Seq<char>>) -> Seq<char> {
    match template {
        Some(t) => method + " "@ + t,
        None => method,
    }
}

/// Computes the span name of an HTTP request.
pub fn http_span_name_of(method: &str, template: Option<&str>) -> (r: String)
    ensures
        r@ == http_span_name(
            method@,
            match template {
                Some(t) => Some(t@),
                None => None,
            },
        ),
{
    match template {
        Some(t) => {
            let with_space = concat(method, " ");
            concat(with_space.as_str(), t)
        },
        None => to_owned(method),
    }
}

/// The attributes of an HTTP request attempt.
pub struct HttpSpanInfo {
    pub rpc_system: &'static str,
    pub otel_kind: &'static str,
    pub otel_name: String,
    pub otel_status: &'static str,
    pub http_request_method: String,
    pub server_address: Option<String>,
    pub server_port: Option<u16>,
    pub url_full: String,
    pub url_scheme: Option<String>,
    pub url_template: Option<String>,
    pub url_domain: Option<&'static str>,
    pub http_response_status_code: Option<u16>,
    pub error_type: Option<&'static str>,
    pub http_request_resend_count: Option<u32>,
    pub gcp_client_service: Option<&'static str>,
    pub gcp_client_version: Option<&'static str>,
    pub gcp_client_repo: &'static str,
    pub gcp_client_artifact: Option<&'static str>,
}

/// One piece of optional client information.
pub open spec fn info_field(
    info: Option<&InstrumentationClientInfo>,
    pick: spec_fn(InstrumentationClientInfo) -> &'static str,
) -> Option<Seq<char>> {
    match info {
        Some(i) => Some(pick(*i)@),
        None => None,
    }
}

/// A string option as an option of its view.
pub open spec fn opt_view(o: Option<String>) -> Option<Seq<char>> {
    match o {
        Some(s) => Some(s@),
        None => None,
    }
}

/// A static string option as an option of its view.
pub open spec fn opt_static_view(o: Option<&'static str>) -> Option<Seq<char>> {
    match o {
        Some(s) => Some(s@),
        None => None,
    }
}

/// `r` holds the attributes of an attempt of `method` on `url`, as attempt
/// number `current_attempt` (counting from zero), for a client described by
/// `info`.
pub open spec fn http_span_info_for(
    r: HttpSpanInfo,
    method: Seq<char>,
    url: UrlView,
    template: Option<Seq<char>>,
    info: Option<&InstrumentationClientInfo>,
    current_attempt: u32,
) -> bool {
    &&& r.rpc_system@ == "http"@
    &&& r.otel_kind@ == "Client"@
    &&& r.otel_name@ == http_span_name(method, template)
    &&& r.otel_status@ == "Unset"@
    &&& r.http_request_method@ == method
    &&& opt_view(r.server_address) == url.host
    &&& r.server_port == port_or_known_default(url)
    &&& r.url_full@ == url.serialization
    &&& opt_view(r.url_scheme) == Some(url.scheme)
    &&& opt_view(r.url_template) == template
    &&& opt_static_view(r.url_domain) == info_field(info, |i: InstrumentationClientInfo| i.default_host)
    &&& r.http_response_status_code is None
    &&& r.error_type is None
    &&& r.http_request_resend_count == (if current_attempt > 0 {
        Some(current_attempt)
    } else {
        None
    })
    &&& opt_static_view(r.gcp_client_service) == info_field(
        info,
        |i: InstrumentationClientInfo| i.service_name,
    )
    &&& opt_static_view(r.gcp_client_version) == info_field(
        info,
        |i: InstrumentationClientInfo| i.client_version,
    )
    &&& r.gcp_client_repo@ == "googleapis/google-cloud-rust"@
    &&& opt_static_view(r.gcp_client_artifact) == info_field(
        info,
        |i: InstrumentationClientInfo| i.client_artifact,
    )
}

/// The server port of an attempt's attributes is the URL's explicit port,
/// or, when the URL names none, the port its scheme implies: 443 for
/// `https` and 80 for `http`.
pub proof fn lemma_span_info_port(
    r: HttpSpanInfo,
    method: Seq<char>,
    url: UrlView,
    template: Option<Seq<char>>,
    info: Option<&InstrumentationClientInfo>,
    current_attempt: u32,
)
    requires
        http_span_info_for(r, method, url, template, info, current_attempt),
    ensures
        url.port matches Some(p) ==> r.server_port == Some(p),
        (url.port is None && url.scheme == "https"@) ==> r.server_port == Some(443u16),
        (url.port is None && url.scheme == "http"@) ==> r.server_port == Some(80u16),
{
    reveal_strlit("https");
    reveal_strlit("http");
    reveal_strlit("ws");
    reveal_strlit("wss");
    reveal_strlit("ftp");
    assert("https"@.len() == 5 && "http"@.len() == 4 && "ws"@.len() == 2 && "wss"@.len() == 3);
    if url.port is None && url.scheme == "https"@ {
        assert(default_port(url.scheme) == Some(443u16));
    }
    if url.port is None && url.scheme == "http"@ {
        assert(default_port(url.scheme) == Some(80u16));
    }
}

/// The attributes of an attempt: system `http`, kind `Client`, status
/// `Unset`; the name is the method, followed by a space and the path
/// template when there is one; the method, URL text and scheme, the
/// template; the resend count on retries only; the client information when
/// there is any; and no response status or error type yet.
pub proof fn lemma_span_info_fields(
    r: HttpSpanInfo,
    method: Seq<char>,
    url: UrlView,
    template: Option<Seq<char>>,
    info: Option<&InstrumentationClientInfo>,
    current_attempt: u32,
)
    requires
        http_span_info_for(r, method, url, template, info, current_attempt),
    ensures
        r.rpc_system@ == "http"@,
        r.otel_kind@ == "Client"@,
        r.otel_status@ == "Unset"@,
        template matches Some(t) ==> r.otel_name@ == method + " "@ + t,
        template is None ==> r.otel_name@ == method,
        r.http_request_method@ == method,
        r.url_full@ == url.serialization,
        r.url_scheme matches Some(x) && x@ == url.scheme,
        template matches Some(t) ==> (r.url_template matches Some(x) && x@ == t),
        template is None ==> r.url_template is None,
        current_attempt > 0 ==> r.http_request_resend_count == Some(current_attempt),
        current_attempt == 0 ==> r.http_request_resend_count is None,
        info matches Some(i) ==> (r.gcp_client_service matches Some(x) && x@ == i.service_name@),
        info matches Some(i) ==> (r.url_domain matches Some(x) && x@ == i.default_host@),
        info is None ==> r.gcp_client_service is None && r.url_domain is None,
        r.http_response_status_code is None,
        r.error_type is None,
        r.gcp_client_repo@ == "googleapis/google-cloud-rust"@,
{
}

impl HttpSpanInfo {
    /// Gathers the attributes of an attempt of `method` on `url`; the
    /// attempt number counts from zero, and only retries report a resend
    /// count.
    pub fn new(
        method: &str,
        url: &ParsedUrl,
        options: &RequestOptions,
        instrumentation: Option<&InstrumentationClientInfo>,
        current_attempt: u32,
    ) -> (r: Self)
        ensures
            http_span_info_for(r, method@, url@, options.template(), instrumentation, current_attempt),
    {
        let url_template = options.path_template();
        let otel_name = http_span_name_of(method, url_template);
        let http_request_resend_count = if current_attempt > 0 {
            Some(current_attempt)
        } else {
            None
        };
        let (gcp_client_service, gcp_client_version, gcp_client_artifact, url_domain) =
            match instrumentation {
            Some(info) => (
                Some(info.service_name),
                Some(info.client_version),
                Some(info.client_artifact),
                Some(info.default_host),
            ),
            None => (None, None, None, None),
        };
        HttpSpanInfo {
            rpc_system: "http",
            otel_kind: "Client",
            otel_name,
            otel_status: "Unset",
            http_request_method: to_owned(method),
            server_address: match url.host_str() {
                Some(h) => Some(to_owned(h)),
                None => None,
            },
            server_port: url.port_or_known_default(),
            url_full: to_owned(url.as_str()),
            url_scheme: Some(to_owned(url.scheme())),
            url_template: match url_template {
                Some(t) => Some(to_owned(t)),
                None => None,
            },
            url_domain,
            http_response_status_code: None,
            error_type: None,
            http_request_resend_count,
            gcp_client_service,
            gcp_client_version,
            gcp_client_repo: "googleapis/google-cloud-rust",
            gcp_client_artifact,
        }
    }
}

} // verus!
