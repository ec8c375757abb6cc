[package]
name = "perf_adapter"
version = "0.1.0"
edition = "2021"
publish = false

[dependencies]
interoptopus = "=0.14.27"
