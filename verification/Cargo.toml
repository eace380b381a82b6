[package]
name = "restdeck"
version = "0.1.0"
edition = "2021"
publish = false

[dependencies]
tui-textarea = "0.7"
ratatui = "0.29"
crossterm = "0.28"
reqwest = { version = "0.12", default-features = false, features = ["rustls-tls"] }
serde = { version = "1", features = ["derive"] }
serde_json = "1"
tokio = { version = "1", features = ["rt-multi-thread", "macros", "sync", "time"] }
