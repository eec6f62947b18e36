[package]
name = "elastic_explorer"
version = "0.1.0"
edition = "2021"
publish = false

[dependencies]
aes-gcm = "0.10"
base64 = "0.22"
hex = "0.4"
rand = "0.9"
dirs = "6"
keyring = { version = "3", default-features = false, features = ["linux-native"] }
reqwest = { version = "0.12", default-features = false, features = ["json"] }
tokio = { version = "1", features = ["rt", "macros"] }
serde = "1"
serde_json = "1"
anyhow = "1"
