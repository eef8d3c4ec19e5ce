[package]
name = "sfav"
version = "0.1.0"
edition = "2021"
publish = false

[dependencies]
ratatui = "0.28"
crossterm = "0.28"
serde = { version = "1", features = ["derive"] }
toml = "0.8"
