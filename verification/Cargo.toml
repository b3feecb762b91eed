[package]
name = "led_clock"
version = "0.1.0"
edition = "2021"
publish = false

[dependencies]
microbit-v2 = "*"
rtt-target = "*"
