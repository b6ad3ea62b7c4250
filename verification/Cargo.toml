[package]
name = "rlbot-launcher"
version = "0.1.0"
edition = "2021"
publish = false

[dependencies]
anyhow = "1"
clap = { version = "4", features = ["derive"] }
directories = "*"
serde = { version = "1", features = ["derive"] }
serde_json = "1"
sha256 = "*"
tracing = "0.1"
tracing-subscriber = "0.3"
ureq = "3"
