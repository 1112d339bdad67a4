[package]
name = "whac"
version = "0.1.0"
edition = "2021"
publish = false

[dependencies]
rand = "0.8"
futures = "0.1"
quicksilver = { version = "0.3", default-features = false, features = ["fonts"] }
