[package]
name = "electron_bot"
version = "0.1.0"
edition = "2021"
publish = false

[dependencies]
rusb = "0.9"
rand = "0.8"
