[package]
name = "hide_email"
version = "0.1.0"
edition = "2021"
publish = false

[dependencies]
ark-groth16 = "=0.3.0"
ark-bn254 = "=0.3.0"
ark-ff = "=0.3.0"
ark-ec = "=0.3.0"
ark-serialize = "=0.3.0"

[dev-dependencies]
ark-std = "=0.3.0"
ark-relations = "=0.3.0"
rand = "=0.8.8"
