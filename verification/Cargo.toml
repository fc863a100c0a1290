[package]
name = "goose_bumps_backend"
version = "0.1.0"
edition = "2021"
publish = false

[dependencies]
uuid = { version = "1", features = ["v4"] }
serde = { version = "1", features = ["derive"] }
dotenvy = "0.15"
futures = "0.3"
secp256k1 = "0.27.0"
web3 = { version = "0.19", default-features = false, features = ["http", "signing"] }
