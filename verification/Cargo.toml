[package]
name = "togo"
version = "0.5.0"
edition = "2021"
publish = false

[dependencies]
robust = "1"
aabb = "*"
