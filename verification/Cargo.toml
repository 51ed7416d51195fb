[package]
name = "auto-scanner-ocr"
version = "0.2.0"
edition = "2021"
publish = false

[dependencies]
anyhow = "1"
chrono = "0.4"
clap = { version = "4", features = ["derive"] }
dirs = "*"
image = { version = "0.25", default-features = false, features = ["png", "pnm", "jpeg"] }
ratatui = "*"
ratatui-image = { version = "*", default-features = false, features = ["crossterm"] }
regex = "1"
serde = { version = "1", features = ["derive"] }
shellexpand = "3"
tempfile = "3"
tokio = { version = "1", features = ["full"] }
tokio-stream = "0.1"
tokio-util = "0.7"
toml = "*"
tracing = "0.1"
tracing-subscriber = { version = "0.3", features = ["env-filter", "chrono"] }
