[package]
name = "shiftreg"
version = "0.1.0"
edition = "2021"
publish = false

[dependencies]
flipperzero = "*"
flipperzero-sys = "*"
flipperzero-rt = "*"
