[package]
name = "logview"
version = "0.1.0"
edition = "2021"
publish = false

[dependencies]
anyhow = "*"
chrono = { version = "*", default-features = false, features = ["std"] }
clap = { version = "*", features = ["derive"] }
clipboard = "*"
crossterm = { version = "*", features = ["event-stream"] }
futures = "*"
notify = "*"
parking_lot = "*"
ratatui = "*"
serde_json = "*"
syntect = { version = "*", default-features = false, features = ["parsing", "default-syntaxes", "default-themes", "regex-fancy", "dump-load"] }
tokio = { version = "*", features = ["full"] }
xml-rs = "*"
