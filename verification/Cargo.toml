[package]
name = "bonsai_relay"
version = "0.1.0"
edition = "2021"
publish = false

[dependencies]
risc0-zkvm = "0.15"
bincode = "1"
bonsai-sdk = "*"
serde = { version = "1", features = ["derive"] }
clap = { version = "4", features = ["derive"] }
tokio = { version = "1", features = ["rt-multi-thread", "macros"] }
reqwest = { version = "0.11", default-features = false, features = ["json", "rustls-tls"] }
