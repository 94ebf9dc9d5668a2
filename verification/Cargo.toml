[package]
name = "led"
version = "0.3.0"
edition = "2021"
publish = false

[dependencies]
ascii = { version = "1", default-features = false }
embedded-hal = "0.2"
ignore-result = "*"
