[package]
name = "tao"
version = "0.1.0"
edition = "2021"
publish = false

[dependencies]
cocoa = "*"
objc = "*"
