[package]
name = "sarun_ui"
version = "0.1.0"
edition = "2021"
publish = false

[dependencies]
base64 = "0.22"
crossterm = "*"
ratatui = "*"
serde_json = "1"
tattoy-wezterm-term = "=0.1.0-fork.5"
toml = "*"
