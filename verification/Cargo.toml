[package]
name = "daily_dashboard"
version = "0.1.0"
edition = "2021"
publish = false

[dependencies]
clap = "2"
dirs = "*"
serde = { version = "1", features = ["derive"] }
serde_yaml = "*"
termion = "1"
tui = { version = "0.19", default-features = false, features = ["termion"] }
