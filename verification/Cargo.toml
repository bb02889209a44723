[package]
name = "djwavfixer"
version = "0.1.0"
edition = "2021"
publish = false

[dependencies]
indexmap = "*"
clap = { version = "*", features = ["derive"] }
log = "*"
rayon = "*"
simple_logger = "*"
tempfile = "*"
thiserror = "*"
