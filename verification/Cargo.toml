[package]
name = "onyx_core"
version = "0.1.0"
edition = "2021"
publish = false

[dependencies]
portable-pty = "*"
parking_lot = "*"
