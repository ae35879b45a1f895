[package]
name = "opentelemetry_log"
version = "0.1.0"
edition = "2021"
publish = false

[dependencies]
anyhow = "1"
log = "0.4"
opentelemetry = "*"
opentelemetry-appender-log = "*"
opentelemetry-otlp = { version = "*", features = ["logs", "http-proto", "reqwest-blocking-client"] }
opentelemetry_sdk = { version = "*", features = ["logs"] }
opentelemetry-semantic-conventions = "*"
