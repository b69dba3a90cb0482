[package]
name = "argonautica"
version = "0.1.0"
edition = "2021"
publish = false

[dependencies]
base64 = "0.13"
futures-cpupool = "0.1"
num_cpus = "1"
