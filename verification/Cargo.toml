[package]
name = "spin_langevin"
version = "0.1.0"
edition = "2021"
publish = false

[dependencies]
nalgebra = "0.32"
ndarray = { version = "0.15", features = ["rayon"] }
num-traits = "0.2"
rand = "0.8"
rayon = "1"

[dev-dependencies]
rand_distr = "0.4"
rand_xoshiro = "0.6"
