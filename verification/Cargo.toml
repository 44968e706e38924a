[package]
name = "llama_agent"
version = "0.1.0"
edition = "2021"
publish = false

[dependencies]
anyhow = "1"
chat-prompts = "*"
chrono = "0.4"
clap = { version = "4", features = ["derive"] }
endpoints = "*"
llama-core = "=0.35.0"
regex = "=1.13.1"
reqwest = { version = "0.12", default-features = false, features = ["rustls-tls"] }
serde = { version = "1", features = ["derive"] }
serde_json = "=1.0.154"
tokio = { version = "1", features = ["rt", "macros"] }
urlencoding = "=2.1.3"
