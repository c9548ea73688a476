[package]
name = "medulla_tui"
version = "0.1.0"
edition = "2021"
publish = false

[dependencies]
crossterm = "*"
serde_json = "*"
toml = "*"
