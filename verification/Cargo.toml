[package]
name = "assistant_shim"
version = "0.1.0"
edition = "2021"
publish = false

[dependencies]
keyring = "2"
reqwest = { version = "0.12", default-features = false, features = ["blocking"] }

[dev-dependencies]
serde_json = "1"
