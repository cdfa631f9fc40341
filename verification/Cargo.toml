[package]
name = "gd32vf103_hal"
version = "0.1.0"
edition = "2021"
publish = false

[dependencies]
embedded-hal = "=1.0.0-alpha.1"
gd32vf103-pac = "*"
nb = "1"
riscv = "0.6"
