//! Client and request settings that the spans describe.

use vstd::prelude::*;

verus! {

/// Static information about a client library, attached to its spans.
pub struct InstrumentationClientInfo {
    pub service_name: &'static str,
    pub client_version: &'static str,
    pub client_artifact: &'static str,
    pub default_host: &'static str,
}

/// Per-request options that the spans read.
pub struct RequestOptions {
    path_template: Option<String>,
}

impl RequestOptions {
    /// Options with no path template.
    pub fn new() -> (r: RequestOptions)
        ensures
            r.template() is None,
    {
        RequestOptions { path_template: None }
    }

    /// The URL path template, as a spec value.
    pub closed spec fn template(&self) -> Option<Seq<char>> {
        match self.path_template {
            Some(t) => Some(t@),
            None => None,
        }
    }

    /// These options with the path template replaced.
    pub fn with_path_template(self, template: Option<String>) -> (r: RequestOptions)
        ensures
            r.template() == match template {
                Some(t) => Some(t@),
                None => None::<Seq<char>>,
            },
    {
        RequestOptions { path_template: template }
    }

    /// The URL path template of the request, if any.
    pub fn path_template(&self) -> (r: Option<&str>)
        ensures
            match r {
                Some(t) => self.template() == Some(t@),
                None => self.template() is None,
            },
    {
        match &self.path_template {
            Some(t) => Some(t.as_str()),
            None => None,
        }
    }
}

/// What the transport layer learned about one request, for the client
/// request span.
pub struct TransportSpanInfo {
    pub http_status_code: Option<u16>,
    pub rpc_grpc_status_code: Option<i32>,
    pub error_type: Option<String>,
    pub otel_status: Option<String>,
    pub server_address: Option<String>,
    pub server_port: Option<i32>,
    pub url_full: Option<String>,
    pub request_resend_count: Option<i64>,
}

impl Default for TransportSpanInfo {
    fn default() -> (r: TransportSpanInfo)
        ensures
            r.http_status_code is None,
            r.rpc_grpc_status_code is None,
            r.error_type is None,
            r.otel_status is None,
            r.server_address is None,
            r.server_port is None,
            r.url_full is None,
            r.request_resend_count is None,
    {
        TransportSpanInfo {
            http_status_code: None,
            rpc_grpc_status_code: None,
            error_type: None,
            otel_status: None,
            server_address: None,
            server_port: None,
            url_full: None,
            request_resend_count: None,
        }
    }
}

} // verus!
