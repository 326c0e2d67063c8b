[package]
name = "bitcoin-peers"
version = "0.1.0"
edition = "2021"
publish = false

[dependencies]
bip324 = { version = "=0.9.0", features = ["tokio"] }
bitcoin = "=0.32.102"
log = "=0.4.35"
tokio = { version = "=1.54.1", features = ["io-util", "macros", "net", "rt", "sync", "time"] }
