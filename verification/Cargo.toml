[package]
name = "scribl"
version = "0.1.0"
edition = "2021"
publish = false

[dependencies]
anyhow = "1"
clap = "*"
crossbeam-channel = "*"
directories-next = "2"
ebur128 = "*"
env_logger = "*"
log = "0.4"
nnnoiseless = "*"
serde = { version = "1", features = ["derive"] }
serde_cbor = "0.11"
serde_json = "1"
thiserror = "*"
toml = "*"
