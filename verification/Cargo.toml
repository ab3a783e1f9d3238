[package]
name = "pico_shell"
version = "0.1.0"
edition = "2021"
publish = false

[dependencies]
heapless = "0.8"
cortex-m = "0.7"
cortex-m-rt = "0.7"
rp2040-pac = { version = "0.6", features = ["rt"] }
rp2040-hal = { version = "0.10", features = ["rt"] }
rp-pico = "0.9"
