[package]
name = "bldc"
version = "0.1.0"
edition = "2021"
publish = false

[dependencies]
libm = "0.2"
cortex-m-rt = "0.6"
cortex-m-semihosting = "0.3"
panic-semihosting = "0.5"
