[package]
name = "dragonos_kernel"
version = "0.1.0"
edition = "2021"
publish = false

[dependencies]
log = "*"
system_error = "*"
xz4rust = "*"
