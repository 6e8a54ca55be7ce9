[package]
name = "news_mcp"
version = "0.1.0"
edition = "2021"
publish = false

[dependencies]
chrono = { version = "=0.4.45", features = ["serde"] }
feed-rs = "=3.0.0"
scraper = "=0.29.0"
serde = { version = "=1.0.229", features = ["derive"] }
serde_json = "=1.0.154"
toml = "=1.2.1"
clap = { version = "=4.6.7", features = ["derive"] }
tokio = { version = "=1.54.1", features = ["full"] }
reqwest = { version = "=0.12.28", features = ["json"] }
reqwest-middleware = "=0.4.2"
reqwest-retry = "=0.7.0"
rust-mcp-sdk = "=0.9.0"
async-trait = "=0.1.92"
futures = "=0.3.34"
thiserror = "=2.0.21"
tracing = "=0.1.44"
tracing-subscriber = { version = "=0.3.23", features = ["env-filter"] }
uuid = { version = "=1.29.1", features = ["v4"] }
