[package]
name = "minesweeper_tui"
version = "0.1.0"
edition = "2021"
publish = false

[dependencies]
color-eyre = "0.6"
crossterm = { version = "0.28", features = ["event-stream"] }
futures = "0.3"
minesweeper-client = "*"
ratatui = "0.29"
tokio = { version = "1", features = ["full"] }
