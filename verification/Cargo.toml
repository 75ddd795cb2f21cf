[package]
name = "antbox"
version = "0.1.0"
edition = "2021"
publish = false

[dependencies]
fastrand = "=2.5.0"
rayon = "=1.12.0"
triple_buffer = "=9.0.0"
