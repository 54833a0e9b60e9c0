[package]
name = "audit_userspace_rs"
version = "0.1.0"
edition = "2021"
publish = false

[dependencies]
crossbeam-channel = "0.5"
libc = "0.2"
thiserror = "1"
