[package]
name = "executionbackup"
version = "0.1.0"
edition = "2021"
publish = false

[dependencies]
axum = "0.7"
ethereum-types = "0.14"
futures = "0.3"
hex = "0.4"
jsonwebtoken = "9"
keccak-hash = "0.10"
keccak-hasher = "=0.15.3"
reqwest = { version = "0.11", default-features = false, features = ["json"] }
serde = { version = "1", features = ["derive"] }
serde_json = "1"
tokio = { version = "1", features = ["full"] }
triehash = "0.8"
