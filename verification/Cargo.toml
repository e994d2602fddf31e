[package]
name = "mt4y"
version = "0.1.0"
edition = "2021"
publish = false

[dependencies]
mozjpeg = { version = "0.9", default-features = false }
image = { version = "0.24", default-features = false }
byte-unit = "4"
seahorse = "2"
