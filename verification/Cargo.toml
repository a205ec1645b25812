[package]
name = "seven_clock"
version = "0.1.0"
edition = "2021"
publish = false

[dependencies]
crossterm = "*"
time = { version = "0.3", features = ["local-offset"] }
