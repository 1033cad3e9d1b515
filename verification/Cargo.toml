[package]
name = "p2p_claude_daemon"
version = "0.1.0"
edition = "2021"
publish = false

[dependencies]
anyhow = "=1.0.104"
async-trait = "=0.1.92"
bytes = "=1.12.1"
camino = "=1.2.6"
clap = { version = "=4.6.7", features = ["derive"] }
dashmap = "=6.2.1"
futures-util = "=0.3.34"
portable-pty = "=0.9.0"
rand = "=0.9.5"
rtc = "=0.21.1"
serde = { version = "=1.0.229", features = ["derive"] }
serde_json = "=1.0.154"
tokio = { version = "=1.54.1", features = ["full"] }
tokio-tungstenite = "=0.30.0"
tracing = "=0.1.44"
tracing-subscriber = { version = "=0.3.23", features = ["env-filter"] }
uuid = { version = "=1.29.0", features = ["v4", "serde"] }
webrtc = "=0.21.1"
