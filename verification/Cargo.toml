[package]
name = "banscii_assistant"
version = "0.1.0"
edition = "2021"
publish = false

[dependencies]
hex = "*"
