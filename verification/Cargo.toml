[package]
name = "uf-max7456"
version = "0.1.0"
edition = "2021"
publish = false

[dependencies]
embedded-hal = "1.0"
embedded-hal-async = "1.0"

[dev-dependencies]
embedded-hal-mock = "0.11"
