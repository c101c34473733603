[package]
name = "sfml"
version = "0.1.0"
edition = "2021"
publish = false

[dependencies]
csfml-system-sys = "=0.6.0"
widestring = "*"
