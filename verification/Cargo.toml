[package]
name = "doit"
version = "0.1.0"
edition = "2021"
publish = false

[dependencies]
clap = "=2.34.0"
colored = "=2.2.0"
human-panic = "1"
num_cpus = "=1.17.0"
