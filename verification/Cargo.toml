[package]
name = "reading_tracker"
version = "0.1.0"
edition = "2021"
publish = false

[dependencies]
argon2 = { version = "0.5", features = ["std"] }
axum = "0.7"
chrono = "=0.4.45"
diesel = { version = "2", features = ["postgres", "uuid", "chrono"] }
diesel-derive-enum = { version = "2", features = ["postgres"] }
dotenvy = "0.15"
serde = { version = "1", features = ["derive"] }
serde_json = "1"
tokio = { version = "1", features = ["full"] }
tower-http = { version = "0.5", features = ["cors"] }
tracing = "0.1"
tracing-subscriber = "0.3"
uuid = { version = "=1.29.0", features = ["v4"] }
