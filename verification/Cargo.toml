[package]
name = "a2vm-core"
version = "0.1.0"
edition = "2021"
publish = false

[dependencies]
clap = { version = "4", features = ["derive"] }
crossterm = "*"
ratatui = "*"
rodio = "*"
log = "*"
env_logger = "*"
