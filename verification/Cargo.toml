[package]
name = "hypertube"
version = "0.1.0"
edition = "2021"
publish = false

[dependencies]
cidr = "*"
ioctl-sys = "*"
libc = "0.2"
