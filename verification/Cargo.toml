[package]
name = "pid_fan"
version = "0.1.0"
edition = "2021"
publish = false

[dependencies]
anyhow = "*"
glob = "*"
serde = { version = "*", features = ["derive"] }
serde_json = "*"
