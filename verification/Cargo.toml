[package]
name = "wavetable"
version = "0.1.0"
edition = "2021"
publish = false

[dependencies]
dirs = "*"
either = "1"
hound = "3"
lazy_static = "1"
vst = "*"
