[package]
name = "smog"
version = "0.1.0"
edition = "2021"
publish = false

[dependencies]
anyhow = "1"
clap = { version = "3.2", features = ["derive"] }
libc = "0.2"
nix = "0.23"
procfs = "0.12"
serde = { version = "1", features = ["derive"] }
serde_json = "1"
