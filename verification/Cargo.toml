[package]
name = "shellfirm"
version = "0.1.0"
edition = "2021"
publish = false

[dependencies]
regex = "=1.13.1"
crossterm = "=0.28.1"
ratatui = "=0.29.0"
tui-input = "=0.11.1"
serde = { version = "1", features = ["derive"] }
serde_yaml = "0.9"
