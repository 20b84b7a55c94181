[package]
name = "freerdp2"
version = "0.1.0"
edition = "2021"
publish = false

[dependencies]
bitflags = "*"
freerdp2-sys = "*"
