[package]
name = "serial_session"
version = "0.1.0"
edition = "2021"
publish = false

[dependencies]
once_cell = "1"
serde_json = "1"
serialport = { version = "4", default-features = false }
slab = "0.4"
