[package]
name = "canfd_config"
version = "0.1.0"
edition = "2021"
publish = false

[dependencies]
fugit = "*"
generic-array = "*"
