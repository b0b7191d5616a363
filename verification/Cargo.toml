[package]
name = "chaikin"
version = "0.1.0"
edition = "2021"
publish = false

[dependencies]
iced_graphics = { version = "0.12", default-features = false }
