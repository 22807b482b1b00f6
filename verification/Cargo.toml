[package]
name = "blockstats"
version = "0.1.0"
edition = "2021"
publish = false

[dependencies]
subxt = "*"
futures = "*"
tokio = { version = "*", features = ["rt-multi-thread", "macros"] }
clap = { version = "*", features = ["derive"] }
parity-scale-codec = "*"
