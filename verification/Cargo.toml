[package]
name = "sysbar"
version = "0.1.0"
edition = "2021"
publish = false

[dependencies]
ksni = "0.2"
cocoa = "0.24"
objc = "0.2"
objc_id = "0.1"
objc-foundation = "0.1"
libc = "0.2"
