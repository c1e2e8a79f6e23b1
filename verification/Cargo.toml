[package]
name = "fee_manager"
version = "0.1.0"
edition = "2021"
publish = false

[dependencies]
axum = "*"
tokio = { version = "*", features = ["full"] }
tower = { version = "*", features = ["limit", "load-shed", "timeout"] }
tower-http = { version = "*", features = ["trace"] }
tracing = "*"
tracing-subscriber = { version = "*", features = ["env-filter", "json"] }
serde = { version = "*", features = ["derive"] }
