[package]
name = "bootloader"
version = "0.1.0"
edition = "2021"
publish = false

[dependencies]
heapless = "=0.5.6"
cortex-m = "=0.6.7"
lpc11uxx = "=0.3.0"
