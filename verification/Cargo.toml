[package]
name = "kaspa_wallet_core"
version = "0.1.0"
edition = "2021"
publish = false

[dependencies]
bip39 = "*"
bip32 = "*"
secp256k1 = "*"
hex = "*"
argon2 = "*"
chacha20poly1305 = "*"
rand = "*"
anyhow = "*"
serde = { version = "*", features = ["derive"] }
serde_json = "*"
clap = { version = "*", features = ["derive"] }
reqwest = { version = "*", default-features = false, features = ["json"] }
tokio = { version = "*", features = ["rt", "macros"] }
