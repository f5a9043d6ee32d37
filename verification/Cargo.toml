[package]
name = "gpu_hal"
version = "0.1.0"
edition = "2021"
publish = false

[dependencies]
bitflags = "2"
parking_lot = "=0.12.5"
thiserror = "=1.0.69"
