[package]
name = "roon_tui"
version = "0.1.0"
edition = "2021"
publish = false

[dependencies]
ratatui = "0.26"
serde = { version = "1", features = ["derive"] }
serde_yaml = "0.9"
dirs = "5"
lazy_static = "1"
roon-api = "*"
