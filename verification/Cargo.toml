[package]
name = "embedded_charts"
version = "0.1.0"
edition = "2021"
publish = false

[dependencies]
embedded-graphics = "0.8"
heapless = "0.8"
micromath = "2"
libm = "0.2"
