[package]
name = "ssd1327"
version = "0.1.0"
edition = "2021"
publish = false

[dependencies]
display-interface = "*"
embedded-graphics = "*"
embedded-hal = "*"
