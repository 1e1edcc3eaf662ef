[package]
name = "heater_dac"
version = "0.1.0"
edition = "2021"
publish = false

[dependencies]
heapless = "=0.9.3"
bitfield-struct = "=0.13.0"
uom = { version = "=0.38.0", default-features = false, features = ["f32", "si", "autoconvert"] }
embedded-hal = "=1.0.0"
embedded-hal-async = "=1.0.0"
kmdparse = "=0.0.3"
log = "=0.4.35"
fixed = "=1.31.0"
static_cell = "=2.1.1"
embassy-sync = "=0.8.0"
embassy-time = "=0.5.1"
embassy-usb = { version = "=0.6.0", default-features = false }
embassy-embedded-hal = { version = "=0.6.0", default-features = false }
embassy-rp = { version = "=0.10.0", features = ["rp2040"] }
embassy-usb-logger = "=0.6.0"
