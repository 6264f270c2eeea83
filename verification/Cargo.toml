[package]
name = "pl011_qemu"
version = "0.1.0"
edition = "2021"
publish = false

[dependencies]
embedded-hal = "0.2"
nb = "1"
volatile-register = "0.2"
