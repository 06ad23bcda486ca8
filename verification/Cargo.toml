[package]
name = "s9pack"
version = "0.1.0"
edition = "2021"
publish = false

[dependencies]
anyhow = "1"
clap = "*"
futures = "0.3"
hashlink = "*"
log = "*"
rand = "*"
serde = { version = "1", features = ["derive"] }
serde_cbor = "*"
serde_json = "1"
serde_yaml = "*"
tokio = { version = "1", features = ["fs", "io-util", "macros", "rt-multi-thread"] }
tokio-tar = "*"
