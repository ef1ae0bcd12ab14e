[package]
name = "heckcheck"
version = "0.1.0"
edition = "2021"
publish = false

[dependencies]
arbitrary = "1"
base64 = "0.13"
rand = "0.8"
