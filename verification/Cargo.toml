[package]
name = "squigglers"
version = "0.1.0"
edition = "2021"

[dependencies]
statrs = "0.16"
rand = "0.8"
rand_distr = "0.4"
ndarray = "0.15"
