[package]
name = "jutella"
version = "0.1.0"
edition = "2021"
publish = false

[dependencies]
serde_json = "1"
serde = { version = "1", features = ["derive"] }
reqwest = { version = "0.12", default-features = false, features = ["json", "stream", "rustls-tls"] }
tokio = { version = "1", features = ["macros", "rt-multi-thread"] }
futures = "0.3"
eventsource-stream = "0.2"
bytes = "1"
url = "2"
anyhow = "1"
clap = { version = "4", features = ["derive"] }
colored = "2"
dirs = "5"
toml = "0.8"
base64 = "0.22"
thiserror = "1"
tempfile = "3"
tiktoken-rs = "*"
