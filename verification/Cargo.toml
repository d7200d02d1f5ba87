[package]
name = "st7735"
version = "0.1.0"
edition = "2021"
publish = false

[dependencies]
embedded-graphics = "0.7"
embedded-hal = "0.2"
rppal = "*"
