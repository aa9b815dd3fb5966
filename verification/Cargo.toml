[package]
name = "oscilloscope_graphics"
version = "0.1.0"
edition = "2021"
publish = false

[dependencies]
cordic = "=0.1.5"
fixed = "=1.31.0"
libm = "=0.2.16"
cortex-m = "=0.7.10"
cortex-m-rt = "=0.7.7"
embedded-hal = "=1.0.0"
rp-pico = "=0.9.0"
