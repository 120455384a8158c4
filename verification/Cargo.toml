[package]
name = "maze_viewer"
version = "0.1.0"
edition = "2021"
publish = false

[dependencies]
ratatui = "=0.29.0"
crossterm = "=0.28.1"
color-eyre = "0.6"
