[package]
name = "gardal"
version = "0.1.0"
edition = "2021"
publish = false

[dependencies]
likely_stable = "=0.1.3"
quanta = "=0.12.6"
tokio = { version = "=1.54.1", features = ["time", "rt", "macros"] }
futures = "=0.3.34"
pin-project-lite = "=0.2.17"
