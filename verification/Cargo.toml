[package]
name = "robot_arm"
version = "0.1.0"
edition = "2021"
publish = false

[dependencies]
anyhow = "1"
rppal = "0.22"
esp-idf-svc = "0.48"
avr-device = { version = "0.5", features = ["atmega328p", "rt"] }
panic-halt = "0.2"
ufmt = "0.2"
