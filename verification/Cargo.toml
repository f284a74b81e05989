[package]
name = "sonic_core"
version = "0.1.0"
edition = "2021"
publish = false

[dependencies]
pairing = "=0.14.2"
