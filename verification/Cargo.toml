[package]
name = "counter_service"
version = "0.1.0"
edition = "2021"
publish = false

[dependencies]
futures = "0.3"
axum = { version = "0.6", features = ["headers"] }
tokio = { version = "1", features = ["macros", "rt-multi-thread", "sync", "net"] }
tower-http = { version = "0.4", features = ["cors"] }
serde = { version = "1", features = ["derive"] }
