[package]
name = "series25"
version = "0.1.0"
edition = "2021"
publish = false

[dependencies]
bitflags = "1.3"
embedded-hal = "0.2.7"
