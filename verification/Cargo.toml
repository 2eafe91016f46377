[package]
name = "grammar_api"
version = "0.1.0"
edition = "2021"
publish = false

[dependencies]
axum = { version = "*", default-features = false, features = ["http1", "json", "tokio"] }
http = "*"
metrics = "*"
metrics-exporter-prometheus = { version = "*", default-features = false }
serde = { version = "*", features = ["derive"] }
tokio = { version = "*", features = ["macros", "rt-multi-thread", "signal", "net"] }
tower_governor = "*"
tower-http = { version = "*", features = ["cors", "request-id", "trace"] }
tracing = "*"
tracing-subscriber = { version = "*", default-features = false, features = ["fmt", "ansi"] }
