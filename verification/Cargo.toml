[package]
name = "helix"
version = "0.1.0"
edition = "2021"
publish = false

[dependencies]
anyhow = "*"
ctrlc = "*"
env_logger = "*"
fast3d = "*"
log = "*"
spin_sleep = "*"
tokio = { version = "*", features = ["rt", "time"] }
