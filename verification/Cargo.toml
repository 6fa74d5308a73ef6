[package]
name = "thermostat"
version = "0.1.0"
edition = "2021"
publish = false

[dependencies]
chrono = "0.2"
log = "0.3"
env_logger = { version = "0.3", default-features = false }
num = { version = "0.1", default-features = false }
rustc-serialize = "0.3"
