[package]
name = "app_prefs"
version = "0.1.0"
edition = "2021"
publish = false

[dependencies]
preferences = "*"
log = "*"
lazy_static = "*"
