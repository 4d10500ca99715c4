[package]
name = "xlib_programming_rust"
version = "0.1.0"
edition = "2021"
publish = false

[dependencies]
x11-dl = "2"
