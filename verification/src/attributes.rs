//! Span attribute keys and the fixed values the spans carry.

use vstd::prelude::*;

verus! {

/// Key of the span name override read by the OpenTelemetry bridge.
pub const OTEL_NAME: &'static str = "otel.name";

/// Key of the span kind read by the OpenTelemetry bridge.
pub const OTEL_KIND: &'static str = "otel.kind";

/// Key of the request status carried by HTTP attempt and client request spans.
pub const OTEL_STATUS: &'static str = "otel.status";

/// Key of the status code read by the OpenTelemetry bridge.
pub const OTEL_STATUS_CODE: &'static str = "otel.status_code";

/// Key of the status description read by the OpenTelemetry bridge.
pub const OTEL_STATUS_DESCRIPTION: &'static str = "otel.status_description";

/// Span kind of a client call.
pub const OTEL_KIND_CLIENT: &'static str = "client";

/// Status code value of a span whose outcome is not known yet.
pub const OTEL_STATUS_CODE_UNSET: &'static str = "UNSET";

/// Status code value of a successful span.
pub const OTEL_STATUS_CODE_OK: &'static str = "OK";

/// Status code value of a failed span.
pub const OTEL_STATUS_CODE_ERROR: &'static str = "ERROR";

/// Key of the client library's service name.
pub const GCP_CLIENT_SERVICE: &'static str = "gcp.client.service";

/// Key of the client library's version.
pub const GCP_CLIENT_VERSION: &'static str = "gcp.client.version";

/// Key of the client library's repository.
pub const GCP_CLIENT_REPO: &'static str = "gcp.client.repo";

/// Key of the client library's artifact name.
pub const GCP_CLIENT_ARTIFACT: &'static str = "gcp.client.artifact";

/// Key of the client library's language.
pub const GCP_CLIENT_LANGUAGE: &'static str = "gcp.client.language";

/// The language of these client libraries.
pub const GCP_CLIENT_LANGUAGE_RUST: &'static str = "rust";

/// The repository of these client libraries.
pub const GCP_CLIENT_REPO_GOOGLEAPIS: &'static str = "googleapis/google-cloud-rust";

/// Key of the gRPC status name.
pub const GRPC_STATUS: &'static str = "grpc.status";

/// Semantic-convention key `rpc.system`.
pub const RPC_SYSTEM: &'static str = "rpc.system";

/// Semantic-convention key `rpc.service`.
pub const RPC_SERVICE: &'static str = "rpc.service";

/// Semantic-convention key `rpc.method`.
pub const RPC_METHOD: &'static str = "rpc.method";

/// Semantic-convention key `rpc.grpc.status_code`.
pub const RPC_GRPC_STATUS_CODE: &'static str = "rpc.grpc.status_code";

/// Semantic-convention key `url.domain`.
pub const URL_DOMAIN: &'static str = "url.domain";

/// Semantic-convention key `url.full`.
pub const URL_FULL: &'static str = "url.full";

/// Semantic-convention key `url.scheme`.
pub const URL_SCHEME: &'static str = "url.scheme";

/// Semantic-convention key `url.template`.
pub const URL_TEMPLATE: &'static str = "url.template";

/// Semantic-convention key `server.address`.
pub const SERVER_ADDRESS: &'static str = "server.address";

/// Semantic-convention key `server.port`.
pub const SERVER_PORT: &'static str = "server.port";

/// Semantic-convention key `http.request.method`.
pub const HTTP_REQUEST_METHOD: &'static str = "http.request.method";

/// Semantic-convention key `http.response.status_code`.
pub const HTTP_RESPONSE_STATUS_CODE: &'static str = "http.response.status_code";

/// Semantic-convention key `http.request.resend_count`.
pub const HTTP_REQUEST_RESEND_COUNT: &'static str = "http.request.resend_count";

/// Semantic-convention key `error.type`.
pub const ERROR_TYPE: &'static str = "error.type";

/// The outcome of a request as the `otel.status` attribute reports it.
#[derive(Debug, Clone, Copy, PartialEq, Eq)]
pub enum OtelStatus {
    Unset,
    Success,
    Error,
}

/// The text of an [`OtelStatus`].
pub open spec fn otel_status_text(s: OtelStatus) -> Seq<char> {
    match s {
        OtelStatus::Unset => "Unset"@,
        OtelStatus::Success => "Ok"@,
        OtelStatus::Error => "Error"@,
    }
}

impl OtelStatus {
    /// The attribute text of the status.
    pub fn as_str(&self) -> (r: &'static str)
        ensures
            r@ == otel_status_text(*self),
    {
        match self {
            OtelStatus::Unset => "Unset",
            OtelStatus::Success => "Ok",
            OtelStatus::Error => "Error",
        }
    }
}

} // verus!
