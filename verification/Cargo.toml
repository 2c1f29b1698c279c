[package]
name = "buoyant_esp32p4"
version = "0.1.0"
edition = "2021"
publish = false

[dependencies]
buoyant = "*"
embedded-graphics = "0.8"
esp-idf-sys = "*"
