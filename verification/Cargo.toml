[package]
name = "termpet"
version = "0.1.0"
edition = "2021"
publish = false

[dependencies]
chrono = "0.4"
clap = { version = "4", features = ["derive"] }
pickledb = "0.5"
rand = "0.8"
