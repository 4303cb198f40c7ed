[package]
name = "nix_rage"
version = "0.1.0"
edition = "2021"
publish = false

[dependencies]
age = "0.11"
sha256 = "1"
tempfile = "3"
users = "0.11"
