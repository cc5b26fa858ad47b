[package]
name = "main_web"
version = "0.1.0"
edition = "2021"
publish = false

[dependencies]
rust-i18n = "3"
md5 = "0.7"
axum-extra = { version = "0.10", features = ["cookie"] }
serde = { version = "1", features = ["derive"] }
serde_json = "1"
axum = "0.8"
tokio = { version = "1", features = ["macros", "rt-multi-thread", "net", "signal"] }
reqwest = { version = "0.12", default-features = false, features = ["json"] }
redis = { version = "0.27", features = ["tokio-comp", "connection-manager"] }
tracing = "0.1"
tracing-subscriber = { version = "0.3", features = ["env-filter", "json"] }
opentelemetry = "0.28"
opentelemetry_sdk = "0.28"
opentelemetry-otlp = { version = "0.28", default-features = false, features = ["http-proto", "reqwest-client", "trace"] }
tracing-opentelemetry = "0.29"
tower-http = { version = "0.6", features = ["fs", "trace"] }
axum-prometheus = "0.8"
