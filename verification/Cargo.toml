[package]
name = "swiftbot_camera"
version = "0.1.0"
edition = "2021"
publish = false

[dependencies]
jpeg-encoder = "*"
jni = "*"
lazy_static = "*"
libc = "*"
v4l = "*"
