[package]
name = "mas_core"
version = "0.1.0"
edition = "2021"
publish = false

[dependencies]
ulid = "1"
chrono = "0.4"
rand = "0.8"
url = "2"
