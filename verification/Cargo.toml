[package]
name = "endless_trial"
version = "0.1.0"
edition = "2021"
publish = false

[dependencies]
arrayvec = "0.7"
rand = { version = "0.8", features = ["small_rng"] }
tetra = "0.8"
