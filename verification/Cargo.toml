[package]
name = "statscore"
version = "0.1.0"
edition = "2021"
publish = false

[dependencies]
nalgebra = "0.33"
ndarray = "*"
numpy = "*"
pyo3 = "*"
rand = "0.9"
rand_distr = "0.5"
statrs = "*"
thiserror = "2"
