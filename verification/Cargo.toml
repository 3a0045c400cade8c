[package]
name = "flow-lib"
version = "0.1.0"
edition = "2021"
publish = false

[dependencies]
uuid = "=1.29.0"
tower = { version = "=0.4.13", features = ["retry", "util", "limit", "buffer"] }
futures = "=0.3.34"
bytes = "=1.12.1"
anyhow = "=1.0.104"
thiserror = "=1.0.69"
tracing = "=0.1.44"
actix = { version = "0.13", default-features = false }
reqwest = { version = "0.11", default-features = false }
solana-sdk = "1"
