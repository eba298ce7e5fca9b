[package]
name = "context_tracker"
version = "0.1.0"
edition = "2021"
publish = false

[dependencies]
chrono = "*"
serde_json = "*"
notify-rust = "*"
serde = { version = "*", features = ["derive"] }
clap = { version = "*", features = ["derive"] }
notify = "*"
home = "*"
anyhow = "*"
