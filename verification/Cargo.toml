[package]
name = "pte_redox"
version = "0.1.0"
edition = "2021"
publish = false

[dependencies]
libc = "=0.2.191"
redox_syscall = "=0.2.16"
