[package]
name = "smolid"
version = "0.1.0"
edition = "2021"
publish = false

[dependencies]
rand = "0.9"

[dev-dependencies]
base32 = "0.5"
