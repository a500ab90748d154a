[package]
name = "refbox"
version = "0.1.0"
edition = "2021"
publish = false

[dependencies]
crc = "3"
bs58 = "0.5"
serde = { version = "1", features = ["derive"] }
serde_json = "1"
toml = "0.8"
time = { version = "0.3", features = ["serde-well-known", "macros", "formatting"] }
