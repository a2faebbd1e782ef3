[package]
name = "bridge_core"
version = "0.1.0"
edition = "2021"
publish = false

[dependencies]
anyhow = "1"
config = { version = "0.11", default-features = false }
env_logger = { version = "0.8", default-features = false }
log = "0.4"
once_cell = "1"
pem = "0.8"
ring = "0.16"
serde = { version = "1", features = ["derive"] }
thiserror = "1"
tokio = { version = "1", features = ["rt-multi-thread", "net", "io-util"] }
