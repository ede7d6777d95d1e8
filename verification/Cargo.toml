[package]
name = "pacdash"
version = "0.1.0"
edition = "2021"
publish = false

[dependencies]
fuzzy-matcher = "*"
chrono = "*"
crossterm = "*"
ratatui = "*"
tokio = { version = "*", features = ["rt-multi-thread", "macros", "sync", "process", "io-std", "io-util"] }
serde = { version = "*", features = ["derive"] }
serde_json = "*"
toml = "*"
dirs = "*"
reqwest = { version = "*", default-features = false, features = ["json"] }
anyhow = "*"
thiserror = "*"
