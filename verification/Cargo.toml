[package]
name = "pcli"
version = "0.1.0"
edition = "2021"
publish = false

[dependencies]
chrono = "0.4"
shellwords = "1"
rusqlite = { version = "0.31", features = ["bundled"] }
clap = { version = "4", features = ["derive"] }
colored = "2"
crossterm = "0.27"
dirs = "5"
notify-rust = "4"
rustyline = "13"
serde = { version = "1", features = ["derive"] }
toml = "0.8"
thiserror = "1"
tokio = { version = "1", features = ["rt-multi-thread", "macros", "time"] }
tracing = "0.1"
tracing-subscriber = "0.3"
anyhow = "1"
