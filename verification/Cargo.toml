[package]
name = "rfcaf"
version = "0.1.0"
edition = "2021"
publish = false

[dependencies]
serde = "1"
serde_derive = "1"
toml = "0.8"
