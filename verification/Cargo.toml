[package]
name = "powers_of_tau"
version = "0.1.0"
edition = "2021"
publish = false

[dependencies]
ark-bls12-381 = "0.3"
ark-ec = "0.3"
ark-ff = "0.3"
hex = "0.4"
rand = "0.8"
serde = { version = "1", features = ["derive"] }
zeroize = "1"

[dev-dependencies]
