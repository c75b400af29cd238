[package]
name = "any_driver"
version = "0.1.0"
edition = "2021"
publish = false

[dependencies]
url = "*"
once_cell = "*"
futures-core = "*"
