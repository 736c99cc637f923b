[package]
name = "football_state"
version = "0.1.0"
edition = "2021"
publish = false

[dependencies]
chrono = { version = "0.4", default-features = false, features = ["std"] }
axum = "0.8"
tokio = { version = "1", features = ["net", "sync", "rt-multi-thread", "macros"] }
tower = { version = "0.5", features = ["util"] }
tower-http = { version = "0.6", features = ["catch-panic"] }
serde = { version = "1", features = ["derive"] }
log = "0.4"
