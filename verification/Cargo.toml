[package]
name = "hdf5"
version = "0.1.0"
edition = "2021"
publish = false

[dependencies]
libc = "0.2"
ndarray = "0.16"
parking_lot = "0.12"
tracing = "0.1"
