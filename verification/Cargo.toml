[package]
name = "cortex-m"
version = "0.1.0"
edition = "2021"
publish = false

[dependencies]
volatile-register = "0.1"
ar = "0.8"
