[package]
name = "floaters"
version = "0.1.0"
edition = "2021"
publish = false

[dependencies]
ggez = "=0.5.1"
nalgebra = "=0.29.0"
ncollide2d = "=0.32.0"
nphysics2d = "=0.24.0"
rand = "=0.7.3"
