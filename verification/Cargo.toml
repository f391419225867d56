[package]
name = "neural_network"
version = "0.1.0"
edition = "2021"
publish = false

[dependencies]
rand = "0.8"
rand_distr = "0.4"
byteorder = "1"
blas = "*"
openblas-src = "*"
plotters = "0.3"
