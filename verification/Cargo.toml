[package]
name = "browser_core"
version = "0.1.0"
edition = "2021"
publish = false

[dependencies]
anyhow = "1"
chrono = "0.4"
url = "2"
rusqlite = "*"
serde = { version = "1", features = ["derive"] }
serde_json = "1"
tao = "*"
thiserror = "*"
tracing = "0.1"
tracing-subscriber = "0.3"
wry = "*"
