[package]
name = "plode_web_agent"
version = "0.1.3"
edition = "2021"
publish = false

[dependencies]
base64 = "=0.23.1"
serde_json = "=1.0.151"
serde = { version = "*", features = ["derive"] }
tokio = { version = "*", features = ["full"] }
axum = { version = "=0.8.9", features = ["multipart"] }
socketioxide = "=0.18.7"
tower-http = { version = "*", features = ["cors"] }
tracing = "*"
tracing-subscriber = "*"
reqwest = { version = "*", default-features = false, features = ["rustls-tls"] }
zip = { version = "*", default-features = false }
chrono = "*"
serialport = { version = "*", default-features = false }
