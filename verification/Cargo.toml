[package]
name = "gb_rs"
version = "0.3.0"
edition = "2021"
publish = false

[dependencies]
time = "0.1"
libc = "0.2"
log = "0.4"
