[package]
name = "mproxy_client"
version = "0.1.0"
edition = "2021"
publish = false

[dependencies]
time = "0.3"
default-net = "*"
