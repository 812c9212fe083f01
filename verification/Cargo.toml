[package]
name = "moq_media"
version = "0.1.0"
edition = "2021"
publish = false

[dependencies]
bytes = "1"
hang = "=0.19.5"
moq-json = "=0.2.0"
moq-net = "=0.1.18"
uniffi = { version = "0.31", default-features = false }
