[package]
name = "iroha_data_model"
version = "0.1.0"
edition = "2021"
publish = false

[dependencies]
parity-scale-codec = "3"
sha2 = "0.10"
ed25519-dalek = "2"
serde = { version = "1", features = ["derive"] }
base64 = "0.22"
