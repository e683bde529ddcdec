[package]
name = "boot_sequence"
version = "0.1.0"
edition = "2021"
publish = false

[dependencies]
fdt = "0.1"
log = "0.4"
riscv = "0.10"
sbi = "0.2"
