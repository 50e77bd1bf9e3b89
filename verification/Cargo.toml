[package]
name = "version_updater"
version = "0.1.0"
edition = "2021"
publish = false

[dependencies]
serde_json = "*"
chrono = "*"
serde = "*"
serde_derive = "*"
clap = { version = "*", features = ["derive"] }
toml = "*"
dirs = "*"
glob = "*"
log = "*"
env_logger = "*"
