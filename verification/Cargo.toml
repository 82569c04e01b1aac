[package]
name = "rp2040_flash"
version = "0.1.0"
edition = "2021"
publish = false

[dependencies]
rp2040-hal = "*"
