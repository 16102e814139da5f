[package]
name = "user_auth_core"
version = "0.1.0"
edition = "2021"
publish = false

[dependencies]
validator = "=0.16.1"
serde = { version = "1", features = ["derive"] }
serde_json = "1"
chrono = { version = "0.4", features = ["serde"] }
uuid = { version = "1", features = ["v4", "serde"] }
axum = "0.7"
