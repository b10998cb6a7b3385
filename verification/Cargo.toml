[package]
name = "rx8900"
version = "0.1.0"
edition = "2021"
publish = false

[dependencies]
chrono = { version = "0.4", default-features = false }
embedded-hal = "0.2"
heapless = "0.8"
