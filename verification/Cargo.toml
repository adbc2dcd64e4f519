[package]
name = "logsetup"
version = "0.1.0"
edition = "2021"
publish = false

[dependencies]
log = "*"
log4rs = "*"
