[package]
name = "pact_cli"
version = "0.1.0"
edition = "2021"
publish = false

[dependencies]
comfy-table = "7"
clap = { version = "4", features = ["env"] }
serde = { version = "1", features = ["derive"] }
serde_json = "1"
home = "0.5"
reqwest = { version = "0.12", default-features = false, features = ["json", "rustls-tls"] }
opentelemetry = "0.33"
opentelemetry_sdk = "0.33"
opentelemetry-otlp = { version = "0.33", features = ["grpc-tonic"] }
opentelemetry-stdout = "0.33"
opentelemetry-appender-tracing = "0.33"
tracing = "0.1"
tracing-opentelemetry = "0.34"
tracing-subscriber = "0.3"
