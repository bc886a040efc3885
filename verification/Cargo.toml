[package]
name = "bandwidth_credentials"
version = "0.1.0"
edition = "2021"
publish = false

[dependencies]
cosmrs = "=0.8.0"
nym-crypto = { version = "=0.4.0", features = ["asymmetric", "rand"] }
nym-sphinx-addressing = "*"
bls12_381 = { version = "=0.8.0", features = ["experimental"] }
sha2 = "=0.9.9"
serde = { version = "1", features = ["derive"] }
serde_json = "1"

[dev-dependencies]
rand = "=0.7.3"
