[package]
name = "blocklist"
version = "0.1.0"
edition = "2021"
publish = false

[dependencies]
uuid = { version = "=1.29.0", features = ["v4"] }
regex = "=1.13.1"
sysinfo = "=0.37.2"
libc = "=0.2.191"
