[package]
name = "fanctrl"
version = "0.1.0"
edition = "2021"
publish = false

[dependencies]
chrono = "*"
csv = "*"
dotenvy = "*"
rppal = "*"
signal-hook = "*"
