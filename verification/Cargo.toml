[package]
name = "vulkano_device"
version = "0.1.0"
edition = "2021"
publish = false

[dependencies]
ash = "0.37"
parking_lot = "0.12"
smallvec = "1"
