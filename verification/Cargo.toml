[package]
name = "commitaura"
version = "0.1.0"
edition = "2021"
publish = false

[dependencies]
anyhow = "=1.0.104"
clap = { version = "=4.6.7", features = ["derive"] }
colored = "=2.2.0"
console = "=0.15.11"
dialoguer = "=0.11.0"
dotenv = "=0.15.0"
env_logger = "=0.11.11"
indicatif = "=0.17.11"
log = "=0.4.34"
openai_api_rust = "=0.1.9"
thiserror = "=1.0.69"
tiktoken-rs = "=0.5.9"
