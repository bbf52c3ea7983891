[package]
name = "arc"
version = "0.1.0"
edition = "2021"
publish = false

[dependencies]
byteorder = "1"
protobuf = "2"
r2d2 = "0.8"
