[package]
name = "mudrv"
version = "0.1.0"
edition = "2021"
publish = false

[dependencies]
context-spore = "*"
