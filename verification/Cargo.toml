[package]
name = "okcvm_desktop"
version = "0.1.0"
edition = "2021"
publish = false

[dependencies]
dirs = "5"
env_logger = "0.10"
log = "0.4"
once_cell = "1"
parking_lot = "0.12"
reqwest = { version = "0.11", default-features = false, features = ["json"] }
serde = { version = "1", features = ["derive"] }
tokio = { version = "1", features = ["sync", "time"] }
