[package]
name = "st7565"
version = "0.1.0"
edition = "2021"

[dependencies]
display-interface = "*"
