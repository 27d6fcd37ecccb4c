[package]
name = "microbit_scrolling_display"
version = "0.1.0"
edition = "2021"
publish = false

[dependencies]
heapless = "=0.8.0"
cortex-m = "=0.7.9"
cortex-m-rt = "=0.7.7"
bare-metal = "=1.0.0"
nrf51-hal = "=0.19.0"
embedded-hal = "=1.0.0"
