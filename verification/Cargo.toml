[package]
name = "tuner"
version = "0.1.0"
edition = "2021"
publish = false

[dependencies]
clap = { version = "4", features = ["derive"] }
cpal = "*"
crossbeam-channel = "0.5"
crossterm = "*"
ratatui = "*"
rustfft = "6"
