[package]
name = "streamsmith"
version = "0.1.0"
edition = "2021"
publish = false

[dependencies]
anyhow = "1"
clap = { version = "4", features = ["derive"] }
open = "5"
serde = { version = "1", features = ["derive"] }
serde_json = "1"
tiny_http = "0.12"
