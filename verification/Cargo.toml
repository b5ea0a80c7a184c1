[package]
name = "evoos_kernel"
version = "0.1.0"
edition = "2021"
publish = false

[dependencies]
rlibc = "1.0"
x86_64 = { version = "*", default-features = false, features = ["instructions"] }
