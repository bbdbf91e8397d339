[package]
name = "chezmoi_tui"
version = "0.1.0"
edition = "2021"
publish = false

[dependencies]
strip-ansi-escapes = "*"
crossterm = "*"
ratatui = "*"
color-eyre = "*"
