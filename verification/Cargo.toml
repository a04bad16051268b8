[package]
name = "yara-sys"
version = "0.1.0"
edition = "2021"
publish = false

[dependencies]
bindgen = { version = "0.57", default-features = false, features = ["runtime"] }
