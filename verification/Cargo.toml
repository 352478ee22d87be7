[package]
name = "wispers_connect"
version = "0.1.0"
edition = "2021"
publish = false

[dependencies]
sha2 = "0.10"
hmac = "0.12"
hkdf = "0.12"
ed25519-dalek = { version = "2", features = ["pkcs8", "rand_core", "alloc"] }
x25519-dalek = { version = "2", features = ["static_secrets"] }
rand = "0.8"
num-bigint = "0.4"
urlencoding = "2"
serde = { version = "1", features = ["derive"] }
serde_json = "1"
anyhow = "1"
clap = { version = "4", features = ["derive", "env"] }
reqwest = { version = "0.12", default-features = false, features = ["blocking", "json"] }
dirs = "5"
