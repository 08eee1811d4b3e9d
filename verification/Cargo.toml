[package]
name = "vexide_devices"
version = "0.1.0"
edition = "2021"
publish = false

[dependencies]
vex-sdk = "*"
rgb = "*"
mint = "*"
smart-leds-trait = "*"
futures-core = "*"
