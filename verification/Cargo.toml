[package]
name = "waybuilder"
version = "0.1.0"
edition = "2021"
publish = false

[dependencies]
serde = { version = "1", features = ["derive"] }
serde_json = "1"
anyhow = "1"
dirs = "*"
ratatui = "*"
crossterm = "*"
tokio = { version = "1", features = ["rt-multi-thread", "macros", "sync", "time"] }
