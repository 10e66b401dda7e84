[package]
name = "speed_reader"
version = "0.1.0"
edition = "2021"
publish = false

[dependencies]
notan = { version = "*", features = ["drop_files"] }
