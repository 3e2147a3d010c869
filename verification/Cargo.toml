[package]
name = "zeth_core"
version = "0.1.0"
edition = "2021"
publish = false

[dependencies]
alloy-primitives = { version = "=1.7.3", features = ["serde"] }
alloy-rlp = "=0.3.17"
alloy-eips = "=2.5.0"
alloy-consensus = "=2.5.0"
serde = { version = "=1.0.229", features = ["derive"] }
serde_with = "=3.24.0"
serde_json = "=1.0.154"
pot = "=3.0.1"
anyhow = "=1.0.104"
clap = { version = "=4.6.7", features = ["derive"] }
tokio = { version = "=1.54.1", features = ["macros", "rt-multi-thread"] }
reqwest = { version = "=0.12.28", default-features = false, features = ["json", "rustls-tls"] }
