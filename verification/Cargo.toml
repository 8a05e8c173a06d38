[package]
name = "sulid"
version = "0.1.0"
edition = "2021"
publish = false

[dependencies]
ulid = "1"
rand = "0.8"
