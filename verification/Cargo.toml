[package]
name = "bringup"
version = "0.1.0"
edition = "2021"
publish = false

[dependencies]
embassy-executor = "*"
embassy-net = "*"
embassy-time = "*"
embedded-tls = "*"
esp-hal = "*"
esp-hal-embassy = "*"
esp-println = "*"
esp-wifi = "*"
fugit = "*"
heapless = "*"
panic-halt = "*"
static_cell = "*"
