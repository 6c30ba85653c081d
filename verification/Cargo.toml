[package]
name = "opentelemetry-otlp"
version = "0.17.0"
edition = "2021"
publish = false

[dependencies]
http = "1.1"
opentelemetry-http = "0.13"
opentelemetry_sdk = { version = "0.24", default-features = false }
prost = "0.13"
serde = { version = "1.0", features = ["derive"] }
thiserror = "1"
tonic = { version = "0.12", default-features = false, features = ["transport"] }
