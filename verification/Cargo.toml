[package]
name = "meditamer"
version = "0.1.0"
edition = "2021"
publish = false

[dependencies]
heapless = "*"
embedded-graphics = "*"
u8g2-fonts = "*"
fixed = "*"
fixed-sqrt = "*"
