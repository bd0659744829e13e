[package]
name = "status_popover"
version = "0.1.0"
edition = "2021"
publish = false

[dependencies]
cocoa = "*"
objc = "*"
