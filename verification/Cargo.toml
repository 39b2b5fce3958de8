[package]
name = "roottask"
version = "0.1.0"
edition = "2021"
publish = false

[dependencies]
log = "*"
uart_16550 = "*"
runs_inside_qemu = "*"
