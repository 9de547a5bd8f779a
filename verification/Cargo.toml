[package]
name = "mechsync"
version = "0.1.0"
edition = "2021"
publish = false

[dependencies]
may = "*"
midir = "*"
log = "*"
env_logger = "*"
clap = { version = "*", features = ["derive"] }
serde = { version = "*", features = ["derive"] }
serde_yml = "*"
