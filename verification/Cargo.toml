[package]
name = "livekit_bridge"
version = "0.1.0"
edition = "2021"
publish = false

[dependencies]
rtrb = "*"
livekit = "*"
tokio = { version = "1", features = ["rt-multi-thread", "time", "sync"] }
futures = "0.3"
once_cell = "1"
anyhow = "1"
