[package]
name = "peak"
version = "0.1.0"
edition = "2021"
publish = false

[dependencies]
chrono = "=0.4.45"
color-eyre = "=0.6.5"
crossterm = "0.29"
git2 = "=0.20.4"
ratatui = "0.30"
