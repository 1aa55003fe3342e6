[package]
name = "traffic_lights"
version = "0.1.0"
edition = "2021"

[dependencies]
esp-println = { version = "=0.18.0", default-features = false, features = ["esp32c3", "uart"] }
