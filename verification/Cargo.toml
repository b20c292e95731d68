[package]
name = "flap"
version = "0.1.0"
edition = "2021"
publish = false

[dependencies]
rand = "0.8"
glium = "0.31"
png = "0.17"
rusttype = "0.9"
