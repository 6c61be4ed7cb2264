[package]
name = "h2c_rust_ref"
version = "0.1.0"
edition = "2021"
publish = false

[dependencies]
digest = "0.10"
sha2 = "0.10"
sha3 = "0.10"
lazy_static = "1"
