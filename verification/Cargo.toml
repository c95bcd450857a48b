[package]
name = "a2l"
version = "0.1.0"
edition = "2021"
publish = false

[dependencies]
anyhow = "1"
bitcoin = "0.32"
bitcoin_hashes = "0.14"
libsecp256k1 = "0.7"
rand = "0.8"
serde = { version = "1", features = ["derive"] }
serde_cbor = "0.11"
thiserror = "1"
