[package]
name = "sensirion_i2c"
version = "0.1.0"
edition = "2021"
publish = false

[dependencies]
embedded-hal = "1.0"
embedded-hal-async = "1.0"
thiserror = { version = "2", default-features = false }
