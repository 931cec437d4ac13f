[package]
name = "rizoma2"
version = "0.1.0"
edition = "2021"
publish = false

[dependencies]
anchor-lang = "=0.30.1"

[dev-dependencies]
sha2 = "=0.10.9"
