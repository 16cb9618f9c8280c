[package]
name = "now_playing"
version = "0.1.0"
edition = "2021"
publish = false

[dependencies]
base64 = "*"
serde = { version = "*", features = ["derive"] }
serde_json = "*"
tokio = { version = "*", features = ["rt-multi-thread", "macros", "sync", "time", "net"] }
tokio-stream = "*"
zbus = "*"
axum = { version = "*", features = ["ws"] }
futures = "*"
tower-http = { version = "*", features = ["cors", "fs"] }
open = "*"
