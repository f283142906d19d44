[package]
name = "multislope_adc"
version = "0.1.0"
edition = "2021"
publish = false

[dependencies]
byteorder = "1"
embedded-hal = "0.2"
libloading = "0.8"
