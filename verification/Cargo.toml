[package]
name = "sporespawn"
version = "0.1.0"
edition = "2021"
publish = false

[dependencies]
byteorder = "1"
discord = "0.8"
