[package]
name = "pong"
version = "0.1.0"
edition = "2021"
publish = false

[dependencies]
color-eyre = "0.6"
crossterm = "0.28"
ratatui = "0.29"
