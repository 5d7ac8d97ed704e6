[package]
name = "sway_cheatsheet"
version = "0.1.0"
edition = "2021"
publish = false

[dependencies]
clap = { version = "*", features = ["derive"] }
env_logger = "*"
gtk4 = "*"
gtk4-layer-shell = "*"
log = "*"
