[package]
name = "site_relay"
version = "0.1.0"
edition = "2021"
publish = false

[dependencies]
hyper = "0.10"
hyper-native-tls = "*"
lazy_static = "1"
convenience = "*"
