[package]
name = "promise_host"
version = "0.1.0"
edition = "2021"
publish = false

[dependencies]
v8 = "*"
color-eyre = "*"
