[package]
name = "lpc55_gpio"
version = "0.1.0"
edition = "2021"
publish = false

[dependencies]
embassy-hal-internal = "=0.3.0"
lpc55-pac = { version = "=0.5.0", default-features = false }
log = "0.4"
