[package]
name = "llm_relay"
version = "0.1.0"
edition = "2021"
publish = false

[dependencies]
serde_json = "=1.0.154"
teloxide = { version = "=0.12.2", features = ["macros"] }
tokio = { version = "=1.54.1", features = ["rt-multi-thread", "macros"] }
reqwest = "=0.11.27"
dotenv = "=0.15.0"
log = "=0.4.34"
pretty_env_logger = "=0.4.0"
takecell = "=0.1.1"
