[package]
name = "mockconn"
version = "0.1.0"
edition = "2021"
publish = false

[dependencies]
mysql = { version = "=28.0.3", default-features = false, features = ["minimal-rust"] }
