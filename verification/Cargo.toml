[package]
name = "openai_ask"
version = "0.1.0"
edition = "2021"
publish = false

[dependencies]
anyhow = "=1.0.104"
clap = { version = "=4.6.7", features = ["derive"] }
serde_json = "=1.0.154"
waki = "=0.5.1"
