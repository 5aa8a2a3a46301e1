[package]
name = "dmx_serial"
version = "0.1.0"
edition = "2021"
publish = false

[dependencies]
serialport = { version = "4", default-features = false }
tauri = { version = "2", default-features = false }
