[package]
name = "raw91_tun"
version = "0.1.0"
edition = "2021"
publish = false

[dependencies]
anyhow = "1"
base91 = "*"
clap = { version = "4", features = ["derive"] }
env_logger = "*"
log = "0.4"
serde = { version = "1", features = ["derive"] }
socket2 = { version = "*", features = ["all"] }
toml = "*"
tun = "*"
