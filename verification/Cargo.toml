[package]
name = "gba_hal"
version = "0.1.0"
edition = "2021"
publish = false

[dependencies]
voladdress = "=1.4.0"
