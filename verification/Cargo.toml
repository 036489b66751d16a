[package]
name = "rewire_extras"
version = "0.1.0"
edition = "2021"
publish = false

[dependencies]
re_types_core = { version = "=0.30.2", default-features = false }
re_sdk_types = { version = "=0.30.2", default-features = false }
