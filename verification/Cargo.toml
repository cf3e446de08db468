[package]
name = "contower"
version = "0.1.0"
edition = "2021"
publish = false

[dependencies]
hex = "0.4"
discv5 = "0.3"
target_info = "0.1"
colored = "2"
chrono = "0.4"
clap = "2"
slog = "2"
slog-term = "2"
slog-async = "2"
git-version = "0.3"
serde = { version = "1", features = ["derive"] }
serde_json = "1"
reqwest = { version = "0.11", default-features = false }
tokio = { version = "1", features = ["full"] }
dotenv = "0.15"
eyre = "0.6"
get_if_addrs = "0.5"
futures = "0.3"
lru = "0.12"
