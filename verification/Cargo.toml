[package]
name = "tokio-periodic"
version = "0.1.0"
edition = "2021"
publish = false

[dependencies]
futures = "0.1"
kernel32-sys = "0.2"
libc = "0.2"
mio = "0.6"
tokio-core = "0.1"
winapi = "0.2"
