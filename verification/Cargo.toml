[package]
name = "videoconverter"
version = "0.1.0"
edition = "2021"
publish = false

[dependencies]
num_cpus = "1"
clap = { version = "4", features = ["derive"] }
tokio = { version = "1", features = ["process", "io-util", "signal", "sync", "rt-multi-thread", "macros"] }
indicatif = "0.17"
walkdir = "2"
