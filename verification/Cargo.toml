[package]
name = "attestation_server"
version = "0.1.0"
edition = "2021"
publish = false

[dependencies]
sev = { version = "4", features = ["openssl"] }
ring = "0.17"
openssl = "0.10"
hex = "0.4"
base64 = "0.22"
bincode = "1"
serde = { version = "1", features = ["derive"] }
serde_json = "1"
toml = "0.8"
clap = { version = "4", features = ["derive"] }
reqwest = { version = "0.12", features = ["blocking", "json"] }
tiny_http = "0.12"
indicatif = "0.17"
hex-buffer-serde = "*"
