[package]
name = "h35_desktop"
version = "0.1.0"
edition = "2021"
publish = false

[dependencies]
url = "2"
tracing = "0.1"
tao = "*"
muda = "*"
wry = "*"
objc2 = "*"
libc = "0.2"
