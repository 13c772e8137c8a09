[package]
name = "chat_relay"
version = "0.1.0"
edition = "2021"
publish = false

[dependencies]
anyhow = "1"
dptree = "0.3"
log = "0.4"
once_cell = "1"
pretty_env_logger = "0.5"
reqwest = { version = "=0.11.27", features = ["json"] }
serde_json = "1"
takecell = "=0.1.1"
teloxide = { version = "=0.12.2", features = ["macros"] }
tokio = { version = "1", features = ["macros", "rt-multi-thread", "time"] }
