[package]
name = "duckgpt"
version = "0.1.0"
edition = "2021"
publish = false

[dependencies]
base64 = "0.21"
chrono = "0.4"
dotenv = "0.15"
env_logger = "0.11"
futures-util = "0.3"
log = "0.4"
ollama-rs = "0.1"
poise = "0.6"
rand = "0.8"
reqwest = { version = "0.11", features = ["json"] }
serde = { version = "1", features = ["derive"] }
serde_json = "1"
serenity = "0.12"
tokio = { version = "1", features = ["macros", "rt-multi-thread"] }
tokio-tungstenite = "0.21"
tracing = "0.1"
url = "2"
uuid = { version = "1", features = ["v4"] }
