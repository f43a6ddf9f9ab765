[package]
name = "okcard"
version = "0.1.0"
edition = "2021"
publish = false

[dependencies]
chrono = "*"
rand = "*"
serde_json = "*"
crossterm = "*"
ratatui = "*"
