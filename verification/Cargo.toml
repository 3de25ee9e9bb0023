[package]
name = "simple_agent"
version = "0.1.0"
edition = "2021"
publish = false

[dependencies]
anyhow = "=1.0.104"
clap = { version = "=4.6.7", features = ["derive"] }
handlebars = "=6.4.4"
ollama-rs = { version = "=0.2.2", features = ["chat-history"] }
openai-api-rs = "=6.0.13"
reqwest = "=0.12.28"
serde = { version = "=1.0.229", features = ["derive"] }
serde_yml = "=0.0.12"
tokio = { version = "=1.54.1", features = ["full"] }
tracing = "=0.1.44"
tracing-subscriber = { version = "=0.3.23", features = ["env-filter"] }
uuid = { version = "=1.29.0", features = ["v4"] }
