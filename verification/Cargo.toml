[package]
name = "ollama_bridge"
version = "0.1.0"
edition = "2021"
publish = false

[dependencies]
serde_json = "1"
ureq = "2"
which = "*"
clap = { version = "4", features = ["derive"] }
anyhow = "1"
