[package]
name = "bikeshare"
version = "0.1.0"
edition = "2021"
publish = false

[dependencies]
axum = "0.6"
axum-prometheus = "0.4"
opentelemetry = { version = "0.19", features = ["rt-tokio"] }
opentelemetry-otlp = { version = "0.12", default-features = false, features = ["trace", "http-proto", "reqwest-client"] }
opentelemetry-semantic-conventions = "0.11"
reqwest = { version = "0.11", default-features = false, features = ["json", "rustls-tls"] }
serde = { version = "1", features = ["derive"] }
sqlx = { version = "0.6", default-features = false, features = ["runtime-tokio-rustls", "postgres", "time", "macros"] }
sublime_fuzzy = "0.7"
thiserror = "1"
time = { version = "0.3", features = ["serde"] }
tokio = { version = "1", features = ["full"] }
tower-http = { version = "0.4", features = ["trace"] }
tracing = "0.1"
tracing-opentelemetry = "0.19"
tracing-subscriber = { version = "0.3", features = ["env-filter"] }
