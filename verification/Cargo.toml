[package]
name = "ossm"
version = "0.1.0"
edition = "2021"
publish = false

[dependencies]
cobs = { version = "*", default-features = false }
crc = "*"
heapless = "*"
rsruckig = "*"
embassy-sync = "*"
embassy-futures = "*"
embedded-hal-async = "*"
log = "*"
