[package]
name = "socket_activation"
version = "0.1.0"
edition = "2021"
publish = false

[dependencies]
libloading = "*"
