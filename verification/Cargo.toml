[package]
name = "evoblock"
version = "0.1.0"
edition = "2021"
publish = false

[dependencies]
array-init = "=2.1.0"
boolinator = "=2.4.0"
nalgebra = "=0.35.0"
rand = "=0.10.3"
rand_distr = "=0.6.0"
