[package]
name = "file_browser"
version = "0.1.0"
edition = "2021"
publish = false

[dependencies]
chrono = "=0.4.45"
clap = { version = "=4.5.61", features = ["derive"] }
crossterm = "=0.27.0"
number_prefix = "=0.4.0"
ratatui = "=0.26.3"
