[package]
name = "autosar_e2e"
version = "0.1.0"
edition = "2021"
publish = false

[dependencies]
crc = "3"
