[package]
name = "dless"
version = "0.1.0"
edition = "2021"
publish = false

[dependencies]
clap = { version = "4", features = ["derive"] }
crossterm = "0.27"
ratatui = "0.26"
tui-textarea = "0.4"
