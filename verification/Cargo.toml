[package]
name = "switchyard_observability"
version = "0.1.0"
edition = "2021"
publish = false

[dependencies]
axum = { version = "=0.8.9", default-features = false }
opentelemetry = "=0.31.0"
opentelemetry-otlp = "=0.31.1"
opentelemetry_sdk = "=0.31.0"
serde_json = { version = "=1.0.154", features = ["preserve_order"] }
tracing = "=0.1.44"
tracing-opentelemetry = "=0.32.1"
tracing-subscriber = { version = "=0.3.23", features = ["env-filter"] }
