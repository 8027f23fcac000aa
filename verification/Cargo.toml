[package]
name = "vit-servicing-station-tests"
version = "0.1.0"
edition = "2021"
publish = false

[dependencies]
base64 = "=0.13.1"
chrono = "=0.4.45"
fake = { version = "=2.3.0", features = ["chrono"] }
rand = "0.7"
