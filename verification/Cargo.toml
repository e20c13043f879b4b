[package]
name = "dfr0299"
version = "0.1.0"
edition = "2021"
publish = false

[dependencies]
mio-serial = { version = "5.0", default-features = false }
