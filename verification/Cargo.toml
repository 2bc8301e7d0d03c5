[package]
name = "io_ctrl"
version = "0.1.0"
edition = "2021"
publish = false

[dependencies]
embedded-can = "*"
embedded-hal = "*"
embedded-hal-async = "*"
embassy-sync = "*"
embassy-time = "*"
embassy-futures = "*"
