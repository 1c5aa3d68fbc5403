[package]
name = "lightning_net_tokio"
version = "0.1.0"
edition = "2021"
publish = false

[dependencies]
lightning = "=0.0.11"
secp256k1 = "=0.15.5"
tokio = { version = "=0.2.25", features = ["io-util", "macros", "rt-core", "sync", "tcp", "time"] }
