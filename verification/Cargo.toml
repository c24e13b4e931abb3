[package]
name = "shrek_superslam"
version = "0.1.0"
edition = "2021"
publish = false

[dependencies]
byteorder = "1"
crossbeam = "0.8"
encoding = "0.2"
getopts = "0.2"
itertools = "0.10"
num_cpus = "1"
serde = { version = "1", features = ["derive"] }
serde_json = "1"
walkdir = "2"
