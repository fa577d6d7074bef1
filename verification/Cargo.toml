[package]
name = "lilygo_epd47"
version = "0.1.0"
edition = "2021"
publish = false

[dependencies]
esp-hal = { version = "*", features = ["esp32s3", "unstable"] }
