[package]
name = "siostail"
version = "0.1.0"
edition = "2021"
publish = false

[dependencies]
serde_json = "=1.0.151"

[dev-dependencies]
chrono = "=0.4.45"
