# gcloud_observability

A verified core for the observability and packaging tooling of the Google
Cloud Rust client libraries. The library (`src/`) computes, with Verus
contracts:

- the attributes of client-request, HTTP-attempt and gRPC spans, and how
  transport reports and response outcomes enrich them (`span`,
  `client_request`, `client_tracing`, `http_span_info`, `http_tracing`,
  `grpc_tracing`);
- what the responses of resumable uploads mean, and the request that starts
  one (`upload`);
- authentication headers as text, their injection as gRPC metadata, and the
  refresh schedule (`auth`);
- the plan of the observability derive (`macros`) and the key/field sync
  attribute, which checks a module's key constants against its struct's
  fields (`key_sync`);
- the Swift packaging plans: target mapping, builds, manifest and archive
  (`packaging`);
- the end-to-end trace check, including the reading of a Cloud Trace
  response body (`trace_check`).

`app/` is the unverified shell: the packager program, `tracing` and `tower`
glue, the tonic interceptor, OTLP export and the token conversions of the
macros.
