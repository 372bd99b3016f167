[package]
name = "message_board"
version = "0.1.0"
edition = "2021"
publish = false

[dependencies]
axum = "*"
chrono = "*"
clap = { version = "*", features = ["derive"] }
http = "*"
schemars = "*"
serde = { version = "*", features = ["derive"] }
serde_json = "*"
tokio = { version = "*", features = ["rt-multi-thread", "net", "signal", "macros"] }
tokio-postgres = "*"
tower-http = { version = "*", features = ["trace", "timeout", "cors"] }
tracing = "*"
tracing-subscriber = { version = "*", features = ["env-filter"] }
ts-rs = "*"
