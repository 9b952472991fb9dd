[package]
name = "tabview"
version = "0.1.0"
edition = "2021"
publish = false

[dependencies]
polars = { version = "=0.55.2", default-features = false, features = ["lazy"] }
ratatui = { version = "=0.30.2", default-features = false, features = ["crossterm"] }
crossterm = "=0.29.0"
catppuccin = "=2.8.0"
csv = "1"
