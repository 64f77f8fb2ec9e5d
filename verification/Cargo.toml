[package]
name = "fedimint_ln_common"
version = "0.1.0"
edition = "2021"
publish = false

[dependencies]
anyhow = "=1.0.104"
bitcoin = { version = "=0.29.2", features = ["serde"] }
lightning-invoice = "=0.26.0"
secp256k1 = { version = "=0.24.3", features = ["serde", "bitcoin_hashes"] }
serde = { version = "=1.0.229", features = ["derive"] }
serde_json = "=1.0.154"
thiserror = "=1.0.69"
