[package]
name = "toy_quant"
version = "0.1.0"
edition = "2021"

[dependencies]
rand = "0.8"
nalgebra = "0.32"
assert_approx_eq = "1"
approx = "0.5"
