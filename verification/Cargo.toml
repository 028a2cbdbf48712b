[package]
name = "presence_detector"
version = "0.1.0"
edition = "2021"
publish = false

[dependencies]
serde_json = "1"
log = "0.4"
env_logger = "*"
chrono = "*"
ctrlc = "*"
paho-mqtt = { version = "*", default-features = false, features = ["bundled"] }
rppal = "*"
ftdi = "*"
ftdi-embedded-hal = "*"
embedded-hal = "1"
