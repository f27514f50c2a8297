[package]
name = "now_playing"
version = "0.1.0"
edition = "2021"
publish = false

[dependencies]
lastfm = "*"
serde = { version = "*", features = ["derive"] }
serde_json = "*"
lambda_http = "*"
lambda_runtime = "*"
tokio = { version = "*", features = ["macros", "rt-multi-thread"] }
tracing-subscriber = { version = "*", features = ["env-filter"] }
futures-util = "*"
