[package]
name = "frost_core"
version = "0.1.0"
edition = "2021"
publish = false

[dependencies]
ash = "*"
glam = "*"
vk-mem = "*"
log = "*"
lazy_static = "*"
winapi = { version = "*", features = ["profileapi", "winnt"] }
