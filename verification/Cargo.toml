[package]
name = "turbo-notes"
version = "0.1.0"
edition = "2021"
publish = false

[dependencies]
anyhow = "1"
auto-launch = "0.5"
chrono = { version = "0.4", features = ["serde"] }
clap = "4"
crossterm = "0.27"
dirs = "5"
ratatui = "0.26"
serde = { version = "1", features = ["derive"] }
serde_json = "1"
tokio = { version = "1", features = ["full"] }
winapi = { version = "0.3", features = ["winreg", "winnt"] }
