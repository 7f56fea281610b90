[package]
name = "sm83_core"
version = "0.1.0"
edition = "2021"

[dev-dependencies]
rand = "*"
