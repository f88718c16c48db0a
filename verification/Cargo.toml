[package]
name = "openai"
version = "0.1.0"
edition = "2021"
publish = false

[dependencies]
anyhow = "1"
axum = { version = "0.6", features = ["headers", "http2"] }
axum-extra = { version = "0.8", features = ["cookie"] }
axum-server = { version = "0.5", features = ["tls-rustls"] }
axum_csrf = { version = "0.7", features = ["layer"] }
http = "0.2"
serde = { version = "1", features = ["derive"] }
serde_json = "1"
tera = { version = "1", default-features = false }
time = { version = "0.3", features = ["formatting"] }
tokio = { version = "1", features = ["rt-multi-thread", "macros", "time", "sync", "net", "signal"] }
tower = { version = "0.4", features = ["limit", "timeout", "util"] }
tower-http = { version = "0.4", features = ["trace", "cors", "map-request-body", "util"] }
tracing = "0.1"
tracing-subscriber = { version = "0.3", features = ["env-filter"] }
