[package]
name = "espwatch"
version = "0.1.0"
edition = "2021"
publish = false

[dependencies]
chrono = { version = "0.4", default-features = false }
critical-section = "1"
embedded-graphics = "0.8"
esp-hal = { version = "0.23", features = ["esp32c3"] }
esp-println = { version = "0.13", features = ["esp32c3"] }
lazy_static = { version = "1", features = ["spin_no_std"] }
ssd1306 = "0.9"
tinybmp = "0.6"
