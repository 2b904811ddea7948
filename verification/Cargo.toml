[package]
name = "p2p_core"
version = "0.1.0"
edition = "2021"
publish = false

[dependencies]
libp2p-identity = { version = "*", features = ["ed25519", "peerid", "rand"] }
multiaddr = "*"
rand = "*"
tokio = { version = "*", features = ["rt", "macros", "sync", "time", "io-std", "io-util"] }
