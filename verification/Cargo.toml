[package]
name = "motion_detection"
version = "0.1.0"
edition = "2021"
publish = false

[dependencies]
anyhow = "1"
image = "0.23"
num-traits = "0.2"
rayon = "1"
