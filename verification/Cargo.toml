[package]
name = "ws2812_pio"
version = "0.1.0"
edition = "2021"
publish = false

[dependencies]
cortex-m = "0.7"
embedded-hal = "0.2"
fugit = "0.3"
nb = "1"
pio = "0.2"
rp2040-hal = "0.10"
smart-leds-trait = "0.3"
