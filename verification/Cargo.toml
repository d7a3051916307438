[package]
name = "routing"
version = "0.1.0"
edition = "2021"
publish = false

[dependencies]
url = "=1.7.2"
once_cell = "=1.21.4"
thiserror = "=1.0.69"
