[package]
name = "zumbra"
version = "0.1.0"
edition = "2021"
publish = false

[dependencies]
ed25519-dalek = "=2.2.0"
hex = "=0.4.3"
rand = "=0.8.8"
zcash_address = "=0.14.0"
uuid = { version = "=1.29.0", features = ["v4"] }
serde = { version = "=1.0.229", features = ["derive"] }
serde_json = "=1.0.154"
anyhow = "=1.0.104"
dirs = "=5.0.1"
clap = { version = "=4.6.7", features = ["derive", "env"] }
zeroize = "=1.9.1"
secrecy = "=0.8.0"
ows-lib = { version = "*", default-features = false }
