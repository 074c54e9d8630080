[package]
name = "ccdi"
version = "0.1.0"
edition = "2021"
publish = false

[dependencies]
image = "*"
serialimage = "*"
simple-expand-tilde = "*"
