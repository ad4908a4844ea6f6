[package]
name = "matter_rgb_lamp"
version = "0.1.0"
edition = "2021"
publish = false

[dependencies]
smart-leds = "*"
palette = "*"
embassy-sync = "*"
embassy-time = "*"
embassy-futures = "*"
