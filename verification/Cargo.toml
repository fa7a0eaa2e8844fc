[package]
name = "smmuv3"
version = "0.1.0"
edition = "2021"
publish = false

[dependencies]
memory_addr = "*"
aarch64-cpu = "*"
tock-registers = "*"
