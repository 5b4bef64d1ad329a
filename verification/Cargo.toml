[package]
name = "waila"
version = "0.1.0"
edition = "2021"
publish = false

[dependencies]
bitcoin = "=0.30.3"
bitcoin-waila = "=0.2.3"
nostr = { version = "=0.31.2", default-features = false, features = ["std"] }
serde_json = "=1.0.151"
clap = { version = "=4.6.7", features = ["derive"] }
