[package]
name = "kanata"
version = "0.1.0"
edition = "2021"
publish = false

[dependencies]
anyhow = "1"
clap = { version = "3", features = ["derive"] }
core-graphics = "0.22"
crossbeam-channel = "0.5"
log = "0.4"
parking_lot = "0.12"
rdev = { version = "0.5", features = ["unstable_grab"] }
simplelog = "0.12"
