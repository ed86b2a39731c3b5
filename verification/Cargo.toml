[package]
name = "rust_options_pricing"
version = "0.1.0"
edition = "2021"

[dependencies]
rand = "0.8"
rand_distr = "0.4"
statrs = "0.16"
