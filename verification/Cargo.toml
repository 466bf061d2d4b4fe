[package]
name = "ark-gpu"
version = "0.1.0"
edition = "2021"
publish = false

[dependencies]
ark-ff = "=0.4.2"
ark-ec = "=0.4.2"
ark-std = "=0.4.0"
ark-bls12-381 = "=0.4.0"
ark-bn254 = "=0.4.0"
sha2 = "=0.10.9"
hex = "=0.4.3"
fil-rustacuda = "=0.1.4"
rust-gpu-tools = "=0.7.2"
once_cell = "1"
tempfile = "3"
execute = "0.2"
