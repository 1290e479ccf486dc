[package]
name = "length"
version = "0.2.2"
edition = "2021"
publish = false

[dependencies]
regex = "1"
