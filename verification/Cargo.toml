[package]
name = "brainwires_cli"
version = "0.1.0"
edition = "2021"
publish = false

[dependencies]
crossterm = "=0.29.0"
ratatui = "=0.30.2"
ratatui-interact = "=0.5.3"
serde = { version = "=1.0.229", features = ["derive"] }
serde_json = "=1.0.154"
dirs = "=7.0.0"
dialoguer = "*"
