[package]
name = "c2s_setup"
version = "0.1.0"
edition = "2021"
publish = false

[dependencies]
chrono = "0.4"
crossterm = "0.28"
ratatui = "0.28"
tokio = { version = "1", features = ["full"] }
