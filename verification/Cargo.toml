[package]
name = "nlabapi"
version = "2.2.0"
edition = "2021"
publish = false

[dependencies]
hidapi = "*"
rusb = "*"
log = "*"
