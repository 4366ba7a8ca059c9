[package]
name = "mission_center"
version = "0.1.0"
edition = "2021"
publish = false

[dependencies]
rust-ini = "*"
raw_sync = "0.1"
shared_memory = "0.12"
lazy_static = "1"
