[package]
name = "grok_pager"
version = "0.1.0"
edition = "2021"
publish = false

[dependencies]
serde = { version = "=1.0.229", features = ["derive"] }
serde_json = "=1.0.154"
chrono = "=0.4.45"
crossterm = "=0.29.0"
agent-client-protocol = "=5.0.0"
unicode-width = "0.2"
