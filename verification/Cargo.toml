[package]
name = "ascii_video"
version = "0.1.0"
edition = "2021"
publish = false

[dependencies]
terminal_size = "*"
