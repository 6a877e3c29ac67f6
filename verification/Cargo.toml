[package]
name = "language_detection"
version = "0.1.0"
edition = "2021"
publish = false

[dependencies]
magika = "=1.1.0"

[dev-dependencies]
ort = { version = "=2.0.0-rc.12", default-features = false, features = ["std", "ndarray", "alternative-backend"] }
