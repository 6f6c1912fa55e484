[package]
name = "plugin_registry"
version = "0.1.0"
edition = "2021"
publish = false

[dependencies]
glob = "*"
libloading = "*"
log = "*"
