[package]
name = "avsync"
version = "0.1.0"
edition = "2021"
publish = false

[dependencies]
anyhow = "*"
cpal = "*"
image = "*"
