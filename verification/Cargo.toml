[package]
name = "ftdi_hal"
version = "0.1.0"
edition = "2021"
publish = false

[dependencies]
ftdi-mpsse = "=0.1.2"
embedded-hal = "=0.2.7"
ftdi = "=0.1.3"
libftd2xx = { version = "=0.33.1", features = ["static"] }
