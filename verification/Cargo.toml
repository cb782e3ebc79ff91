[package]
name = "dot15d4"
version = "0.1.0"
edition = "2021"
publish = false

[dependencies]
fugit = "0.3"
generic-array = "1"
typenum = "1"
nrf52840-pac = { version = "0.12", features = ["rt"] }
cortex-m = "0.7"
embassy-net-driver = "0.2"
portable-atomic = "1"
static_cell = "2"
