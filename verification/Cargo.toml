[package]
name = "grid_chat"
version = "0.1.0"
edition = "2021"
publish = false

[dependencies]
tokio = { version = "1", features = ["sync", "net", "io-util", "rt-multi-thread", "macros"] }
ratatui = "0.23"
crossterm = "0.27"
tui-input = "0.8"
cli-clipboard = "0.4"
