[package]
name = "brain"
version = "0.1.0"
edition = "2021"
publish = false

[dependencies]
nalgebra = "=0.35.0"
ncollide2d = "*"
rlbot = "=0.7.0"
