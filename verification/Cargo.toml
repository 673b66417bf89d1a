[package]
name = "ledit"
version = "0.1.0"
edition = "2021"
publish = false

[dependencies]
unicode-segmentation = "*"
unicode-width = "*"
crossterm = "*"
log = "*"
env_logger = "*"
libc = "*"
