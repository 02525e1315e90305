[package]
name = "cwe"
version = "0.1.0"
edition = "2021"
publish = false

[dependencies]
anyhow = "1"
base64 = "0.13"
bincode = "1"
chrono = { version = "0.4", features = ["serde"] }
clap = { version = "3", features = ["derive"] }
ed25519-dalek = { version = "1", features = ["serde"] }
hex = "0.4"
libc = "0.2"
rand = "0.7"
serde = { version = "1", features = ["derive"] }
serde_json = "1"
sha2 = "0.10"
uuid = { version = "1", features = ["v4"] }
