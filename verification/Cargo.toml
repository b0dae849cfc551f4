[package]
name = "dbmerge"
version = "0.1.0"
edition = "2021"
publish = false

[dependencies]
anyhow = "*"
clap = { version = "*", features = ["derive"] }
colored = "*"
env_logger = "*"
indicatif = "*"
log = "*"
mysql = "*"
serde = { version = "*", features = ["derive"] }
serde_json = "*"
toml = "*"
