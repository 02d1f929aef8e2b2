[package]
name = "attestation"
version = "0.1.0"
edition = "2021"
publish = false

[dependencies]
anyhow = "1"
base64 = "0.13"
chrono = { version = "0.4", default-features = false, features = ["std"] }
rustls = "0.19"
serde = { version = "1", features = ["derive"] }
serde_json = "1"
uuid = "0.8"
webpki = "0.21"

[dev-dependencies]
yasna = "0.5"
