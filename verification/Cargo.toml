[package]
name = "widerwlock"
version = "0.5.0"
edition = "2021"
publish = false

[dependencies]
parking_lot_core = "0.9"
