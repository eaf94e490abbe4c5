[package]
name = "tg_adapter"
version = "0.1.0"
edition = "2021"
rust-version = "1.95"
publish = false

[dependencies]
anyhow = "1"
base64 = "=0.22.1"
log = "0.4"
serde = { version = "1", features = ["derive"] }
serde_json = "1"
takecell = "=0.1.1"
teloxide = { version = "=0.17.0", default-features = false }
tokio = { version = "1", features = ["rt-multi-thread", "time"] }
toml = "0.8"
url = "=2.5.8"
