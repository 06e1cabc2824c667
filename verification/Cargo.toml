[package]
name = "stream_api"
version = "0.1.0"
edition = "2021"
publish = false

[dependencies]
rand = "0.9"
axum = { version = "0.8", features = ["ws"] }
axum-response-cache = "*"
tokio = { version = "1", features = ["full"] }
serde = { version = "1", features = ["derive"] }
serde_json = "1"
tracing = "0.1"
tracing-subscriber = { version = "0.3", features = ["env-filter"] }
reqwest = { version = "0.12", default-features = false, features = ["json", "rustls-tls"] }
reqwest-middleware = "0.4"
reqwest-retry = "0.7"
reqwest-tracing = "0.5"
tower = { version = "0.5", features = ["timeout"] }
tower-http = { version = "0.6", features = ["trace"] }
