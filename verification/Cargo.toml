[package]
name = "niru"
version = "0.1.0"
edition = "2021"
publish = false

[dependencies]
anyhow = "1"
crossterm = "0.28"
env_logger = "0.11"
libc = "0.2"
log = "0.4"
ratatui = "0.29"
rusqlite = "0.32"
serde = { version = "1", features = ["derive"] }
serde_json = "1"
tokio = { version = "1", features = ["full"] }
