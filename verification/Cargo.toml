[package]
name = "manif_geom"
version = "0.1.0"
edition = "2021"
publish = false

[dependencies]
nalgebra = { version = "0.33", features = ["rand"] }
rand = "0.8"
