[package]
name = "patchlan"
version = "0.1.0"
edition = "2021"
publish = false

[dependencies]
anyhow = "*"
clap = { version = "*", features = ["derive"] }
futures = "*"
futures-timer = "*"
libp2p = { version = "*", features = ["tokio", "tcp", "quic", "dns", "noise", "yamux", "relay", "ping", "identify", "dcutr", "macros", "ed25519"] }
tokio = { version = "*", features = ["rt-multi-thread", "macros"] }
tracing = "*"
tracing-subscriber = "*"
