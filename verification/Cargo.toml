[package]
name = "dobby-rs"
version = "0.1.0"
edition = "2021"
publish = false

[dependencies]
dobby-sys = "*"
thiserror = "1.0"
