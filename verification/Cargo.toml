[package]
name = "aeiou"
version = "0.1.0"
edition = "2021"
publish = false

[dependencies]
chrono = "0.4"
colored = "*"
tracing = "0.1"
tracing-subscriber = "0.3"
