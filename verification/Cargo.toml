[package]
name = "langgraph_commander"
version = "1.2.0"
edition = "2021"
publish = false

[dependencies]
anyhow = "1"
chrono = "0.4"
clap = { version = "4", features = ["derive"] }
crossterm = "0.28"
dirs = "6"
ratatui = "0.29"
reqwest = { version = "0.12", default-features = false, features = ["blocking"] }
serde = { version = "1", features = ["derive"] }
serde_json = "1"
sysinfo = "0.33"
toml = "0.8"
uuid = { version = "1", features = ["v4"] }
wait-timeout = "0.2"
