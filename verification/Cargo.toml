[package]
name = "api_client"
version = "0.1.0"
edition = "2021"
publish = false

[dependencies]
serde = { version = "=1.0.229", features = ["derive"] }
serde_json = "=1.0.154"
reqwest = { version = "=0.12.28", default-features = false, features = ["json", "rustls-tls"] }
tokio = { version = "=1.54.1", features = ["macros", "rt-multi-thread"] }
ratatui = "=0.29.0"
crossterm = "=0.28.1"
rusqlite = { version = "=0.32.1", features = ["bundled"] }
