[package]
name = "flox_sdk"
version = "0.1.0"
edition = "2021"
publish = false

[dependencies]
regex = "1"
serde_json = "1"
tempfile = "3"
walkdir = "2"
