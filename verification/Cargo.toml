[package]
name = "screencopy"
version = "0.1.0"
edition = "2021"
publish = false

[dependencies]
wayland-client = "*"
wayland-protocols-wlr = { version = "*", features = ["client"] }
tempfile = "*"
memmap2 = "*"
