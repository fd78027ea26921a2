[package]
name = "declare_tx"
version = "0.1.0"
edition = "2021"
publish = false

[dependencies]
starknet-crypto = "*"
starknet-core = "*"
serde = { version = "*", features = ["derive"] }

[dev-dependencies]
serde_json = "*"
