[package]
name = "dynwave"
version = "0.1.0"
edition = "2021"
publish = false

[dependencies]
ringbuf = "*"
rubato = "*"
cpal = "*"
