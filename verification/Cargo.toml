[package]
name = "cmplog_harvest"
version = "0.1.0"
edition = "2021"
publish = false

[dependencies]
clap = { version = "*", features = ["derive"] }
libc = "*"
nix = "0.26"
serde = { version = "*", features = ["derive"] }
serde_json = "*"
