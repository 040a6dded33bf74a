[package]
name = "clipboard_files"
version = "0.1.0"
edition = "2021"
publish = false

[dependencies]
thiserror = "*"
objc2 = "*"
objc2-app-kit = "*"
objc2-foundation = "*"
