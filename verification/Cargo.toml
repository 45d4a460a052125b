[package]
name = "signal_interner"
version = "0.1.0"
edition = "2021"
publish = false

[dependencies]
hashbrown = "*"
libc = "0.2"
lazy_static = "1"
