[package]
name = "surfboard"
version = "0.1.0"
edition = "2021"
publish = false

[dependencies]
heapless = { version = "=0.8.0", features = ["serde"] }
rand_core = "=0.9.5"
embassy-sync = "=0.8.0"
embassy-futures = "=0.1.2"
embassy-time = "=0.5.1"
embedded-graphics = "=0.8.2"
embedded-hal = "=1.0.0"
epd-waveshare = "=0.6.0"
tinyqoi = "=0.2.0"
serde = { version = "=1.0.229", default-features = false, features = ["derive"] }
serde-json-core = "=0.7.0"
