[package]
name = "fuc_engine"
version = "0.1.0"
edition = "2021"
publish = false

[dependencies]
rustix = { version = "*", features = ["fs", "thread"] }
crossbeam-channel = "*"
clap = { version = "*", features = ["derive"] }
