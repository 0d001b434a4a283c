[package]
name = "timecard"
version = "0.1.0"
edition = "2021"
publish = false

[dependencies]
axum = "0.8"
axum-server = { version = "*", features = ["tls-rustls"] }
base64 = "0.22"
chrono = { version = "0.4", features = ["serde"] }
dashmap = "*"
dotenvy = "*"
futures-util = "0.3"
reqwest = { version = "*", features = ["json"] }
rust_socketio = { version = "*", features = ["async"] }
serde = { version = "1", features = ["derive"] }
serde_json = "1"
socketioxide = { version = "*", features = ["state"] }
sqlx = { version = "*", default-features = false, features = ["runtime-tokio", "mysql", "chrono"] }
tokio = { version = "1", features = ["full"] }
tonic = "*"
tonic-reflection = "*"
tonic-web = "*"
tower-http = { version = "*", features = ["cors"] }
tracing = "0.1"
tracing-appender = "0.2"
tracing-subscriber = "0.3"
uuid = { version = "1", features = ["v4"] }
