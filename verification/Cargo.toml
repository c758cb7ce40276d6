[package]
name = "jade_client"
version = "0.1.0"
edition = "2021"
publish = false

[dependencies]
async-trait = "0.1"
bitcoin = "0.32"
ciborium = "0.2"
log = "0.4"
rand = "0.8"
serde = { version = "1", features = ["derive"] }
serde_bytes = "0.11"
serialport = { version = "4", default-features = false }
tokio = { version = "1", features = ["rt", "sync", "time"] }
zeroize = "1"
