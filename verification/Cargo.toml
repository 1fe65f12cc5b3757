[package]
name = "arm2riscv"
version = "0.1.0"
edition = "2021"

[dependencies]
either = "1"
smallvec = "1"
thiserror = "1"
