[package]
name = "pixel_platformer"
version = "0.1.0"
edition = "2021"
publish = false

[dependencies]
cortex-m = "=0.7.9"
cortex-m-rt = "=0.7.7"
embedded-hal = "=1.0.0"
microbit-v2 = "=0.16.0"
panic-halt = "=1.0.0"
