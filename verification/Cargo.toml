[package]
name = "core_diff"
version = "0.1.0"
edition = "2021"
publish = false

[dependencies]
num-traits = "0.2"
nalgebra = "0.33"
