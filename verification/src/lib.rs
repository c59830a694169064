//! Verified core of the Google Cloud Rust observability and packaging tooling:
//! span attribute computation for HTTP and gRPC requests, resumable-upload
//! response handling, the observability derive planner, and the Swift
//! packaging plans.

pub mod text;
pub mod bytes;
pub mod packaging;
pub mod span;
pub mod attributes;
pub mod options;
pub mod client_request;
pub mod client_tracing;
pub mod grpc_tracing;
pub mod url;
pub mod http_span_info;
pub mod http_tracing;
pub mod upload;
pub mod auth;
pub mod macros;
pub mod trace_check;
pub mod key_sync;
