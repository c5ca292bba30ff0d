[package]
name = "walkie_textie"
version = "0.1.0"
edition = "2021"
publish = false

[dependencies]
crc = "3"

[dev-dependencies]
corncobs = "0.1"
