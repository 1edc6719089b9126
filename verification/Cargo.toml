[package]
name = "arbigen"
version = "0.1.0"
edition = "2021"
publish = false

[dependencies]
rand = "=0.8.8"
rand_distr = "=0.4.3"
libm = "0.2"
num-traits = "0.2"
