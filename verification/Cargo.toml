[package]
name = "docker_helper"
version = "0.1.0"
edition = "2021"
publish = false

[dependencies]
urlencoding = "*"
anyhow = "*"

[dependencies.curl]
version = "*"
default-features = false
