[package]
name = "suno_mv"
version = "0.1.0"
edition = "2021"
publish = false

[dependencies]
base64 = "0.22"
regex = "1"
serde = { version = "1", features = ["derive"] }
serde_json = "1"
ureq = "2"
tokio = { version = "1", features = ["process", "io-util", "sync", "fs", "rt", "macros"] }
reqwest = { version = "0.12", default-features = false, features = ["rustls-tls"] }
tauri = { version = "2", default-features = false }
