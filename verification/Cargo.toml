[package]
name = "aac-audio"
version = "0.1.0"
edition = "2021"
publish = false

[dependencies]
fdk-aac-sys = "*"
thiserror = "*"
