[package]
name = "embedded-graphics-menu"
version = "0.1.0"
edition = "2021"
publish = false

[dependencies]
embedded-graphics = "=0.7.0-alpha.1"
heapless = "=0.5.6"
