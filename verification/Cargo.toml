[package]
name = "dc_motor_speed_control"
version = "0.1.0"
edition = "2021"
publish = false

[dependencies]
heapless = "=0.8.0"
embedded-hal = "=1.0.0"
defmt = "=1.2.0"
embassy-executor = "=0.9.1"
embassy-time = "=0.5.1"
embassy-sync = "=0.8.0"
