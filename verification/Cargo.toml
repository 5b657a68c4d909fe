[package]
name = "rtuinventory"
version = "0.1.0"
edition = "2021"
publish = false

[dependencies]
crossterm = "0.28"
ratatui = "0.29"
rusqlite = "*"
serde = { version = "1", features = ["derive"] }
toml = "*"
