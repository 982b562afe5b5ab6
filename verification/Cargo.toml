[package]
name = "ineed"
version = "0.1.0"
edition = "2021"
publish = false

[dependencies]
rpassword = "7"
