[package]
name = "tplay"
version = "0.1.0"
edition = "2021"
publish = false

[dependencies]
serde_json = "*"
url = "*"
crossbeam-channel = "*"
crossterm = "*"
image = "*"
gif = "*"
