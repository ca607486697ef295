[package]
name = "nadir_ui"
version = "0.1.0"
edition = "2021"
publish = false

[dependencies]
chrono = "=0.4.45"
ratatui = "=0.30.2"
