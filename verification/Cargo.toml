[package]
name = "explorer_core"
version = "0.1.0"
edition = "2021"
publish = false

[dependencies]
ratatui = "*"
crossterm = "*"
chrono = "*"
serde = { version = "*", features = ["derive"] }
serde_json = "*"
ethers-core = "*"
