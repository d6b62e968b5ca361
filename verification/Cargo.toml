[package]
name = "etf"
version = "0.1.0"
edition = "2021"
publish = false

[dependencies]
rand = "0.8"
rand_core = "0.6"
thiserror = "1"

[dev-dependencies]
rand_pcg = "0.3"
