[package]
name = "system_path"
version = "0.1.0"
edition = "2021"
publish = false

[dependencies]
anyhow = "*"
fs-err = "*"
log = "*"
