[package]
name = "gcloud_observability"
version = "0.1.0"
edition = "2021"
publish = false

[dependencies]
http = "=1.5.0"
reqwest = { version = "=0.12.28", default-features = false }
syn = { version = "=2.0.119", features = ["full"] }
quote = "=1.0.47"
proc-macro2 = "=1.0.107"
tracing = "=0.1.44"
tower = { version = "=0.5.3", default-features = false }
tokio = { version = "=1.54.1", features = ["rt", "sync", "time", "macros"] }
tonic = { version = "=0.14.9", default-features = false }
serde_json = "=1.0.154"
anyhow = "=1.0.104"
thiserror = "=2.0.21"
clap = { version = "=4.6.7", features = ["derive"] }
zip = { version = "=9.2.2", default-features = false, features = ["deflate"] }
opentelemetry = "=0.33.1"
opentelemetry_sdk = "=0.33.1"
opentelemetry-otlp = { version = "=0.33.1", default-features = false, features = ["grpc-tonic", "trace", "tls-ring"] }
tracing-opentelemetry = "=0.34.0"
tracing-subscriber = { version = "=0.3.23", features = ["fmt", "registry"] }
