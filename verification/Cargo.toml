[package]
name = "idgen"
version = "0.1.0"
edition = "2021"
publish = false

[dependencies]
getrandom = "0.2"
once_cell = "1"
parking_lot = "0.12"

[dev-dependencies]
rayon = "1"
