[package]
name = "eq2c"
version = "0.1.0"
edition = "2021"
publish = false

[dependencies]
clap = { version = "*", features = ["derive"] }
glam = "*"
image = "*"
rayon = "*"
thiserror = "*"
