[package]
name = "todo_rs"
version = "0.1.0"
edition = "2021"
publish = false

[dependencies]
chrono = "0.4"
clap = { version = "4", features = ["derive"] }
color-eyre = "0.6"
crossterm = "0.27"
home = "0.5"
ratatui = "0.26"
