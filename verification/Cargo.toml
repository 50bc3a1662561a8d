[package]
name = "pumpbot"
version = "0.1.0"
edition = "2021"
publish = false

[dependencies]
embedded-graphics = "0.8"
display-interface = "0.5"
