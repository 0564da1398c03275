[package]
name = "codex_core"
version = "0.1.0"
edition = "2021"
publish = false

[dependencies]
base64 = "0.22"
dirs = "*"
futures = "0.3"
mime_guess = "2"
opentelemetry = "0.30"
opentelemetry-otlp = { version = "0.30", features = ["grpc-tonic", "http-proto", "trace"] }
opentelemetry-proto = { version = "0.30", features = ["gen-tonic", "trace", "with-serde"] }
opentelemetry-stdout = { version = "0.30", features = ["trace"] }
opentelemetry_sdk = { version = "0.30", features = ["trace"] }
serde = { version = "1", features = ["derive"] }
serde_json = { version = "1", features = ["preserve_order"] }
time = { version = "0.3", features = ["formatting", "local-offset", "macros"] }
tokio = { version = "1", features = ["fs", "io-util", "macros", "process", "rt", "rt-multi-thread", "sync", "time"] }
tracing = "0.1"
tracing-opentelemetry = "0.31"
tracing-subscriber = "0.3"
uuid = { version = "1", features = ["v4"] }
