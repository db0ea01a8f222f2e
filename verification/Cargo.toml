[package]
name = "ising2d"
version = "0.1.0"
edition = "2021"
publish = false

[dependencies]
plotters = "0.3"
rand = "0.8"
rand_xoshiro = "0.6"
