[package]
name = "smappservice-rs"
version = "0.1.0"
edition = "2021"
publish = false

[dependencies]
objc2 = "*"
objc2-foundation = "*"
objc2-service-management = "*"
thiserror = "*"
