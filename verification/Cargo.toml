[package]
name = "brick_audit"
version = "0.1.0"
edition = "2021"
publish = false

[dependencies]
walkdir = "*"
xattr = "*"

[dev-dependencies]
uuid = "*"
