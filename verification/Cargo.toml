[package]
name = "easy_steamworks"
version = "0.1.0"
edition = "2021"
publish = false

[dependencies]
const-cstr = "=0.3.0"
derive_more = "=0.99.20"
futures = "=0.1.31"
lazy_static = "1"
