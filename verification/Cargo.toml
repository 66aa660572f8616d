[package]
name = "quic_tunnel"
version = "0.1.0"
edition = "2021"
publish = false

[dependencies]
lz4_flex = "0.11"
quinn = "0.10"
tokio = { version = "1", features = ["io-util", "net", "rt", "macros", "sync", "time"] }
anyhow = "1"
