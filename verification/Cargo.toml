[package]
name = "kawaiifi"
version = "0.1.0"
edition = "2021"
publish = false

[dependencies]
chrono = { version = "=0.4.45", default-features = false, features = ["std", "clock"] }
libc = "0.2"
neli = "0.7"
