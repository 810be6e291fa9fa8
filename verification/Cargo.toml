[package]
name = "rust_web"
version = "0.1.0"
edition = "2021"
publish = false

[dependencies]
snap = "1"
serde_json = "1"
serde = { version = "1", features = ["derive"] }
axum = "0.8"
tokio = { version = "1", features = ["rt-multi-thread", "net", "macros"] }
tracing = "0.1"
tracing-subscriber = { version = "0.3", features = ["env-filter"] }
