[package]
name = "ccgeom"
version = "0.1.0"
edition = "2021"

[dependencies]
num-traits = "0.2"
vecmat = "0.7"
rand = "0.8"

[dev-dependencies]
rand_xorshift = "0.3"
approx = "0.5"
