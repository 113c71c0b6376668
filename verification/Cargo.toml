[package]
name = "gwa"
version = "0.1.0"
edition = "2021"
rust-version = "1.95"
publish = false

[dependencies]
cargo-generate = "=0.20.0"
clap = { version = "=4.5.61", features = ["derive"] }
dev_utils = "=0.1.4"
kstring = "=2.0.2"
pyo3 = "=0.30.1"
