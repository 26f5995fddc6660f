[package]
name = "stokast"
version = "0.1.0"
edition = "2021"
publish = false

[dependencies]
arrayvec = { version = "=0.7.8", default-features = false }
cortex-m = "=0.7.10"
cortex-m-rt = "=0.6.15"
embedded-hal = "=0.2.7"
log = "=0.4.34"
teensy4-bsp = "0.3"
