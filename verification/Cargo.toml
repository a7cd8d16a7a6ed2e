[package]
name = "discord_ipc_rust"
version = "0.1.0"
edition = "2021"
publish = false

[dependencies]
serde_json = "*"
uuid = { version = "*", features = ["v4"] }
tokio = { version = "*", features = ["rt-multi-thread", "net", "io-util", "macros", "time", "sync"] }
