[package]
name = "atmospheric_sensor"
version = "0.1.0"
edition = "2021"
publish = false

[dependencies]
byteorder = "1"
embedded-hal = "1"

[dev-dependencies]
embedded-hal-mock = "*"
