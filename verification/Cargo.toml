[package]
name = "slider_hid"
version = "0.1.0"
edition = "2021"
publish = false

[dependencies]
log = "0.4"
rusb = "0.9"
serialport = { version = "4", default-features = false }
