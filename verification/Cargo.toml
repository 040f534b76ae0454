[package]
name = "iup_callback"
version = "0.1.0"
edition = "2021"
publish = false

[dependencies]
iup-sys = "*"
