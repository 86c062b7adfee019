[package]
name = "openshock_tui"
version = "0.1.0"
edition = "2021"
publish = false

[dependencies]
crossterm = "0.28"
platform-dirs = "0.3"
ratatui = "0.29"
rzap = "*"
tokio = { version = "1", features = ["macros", "rt-multi-thread"] }
tui-textarea = "0.7"
