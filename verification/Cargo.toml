[package]
name = "mandel_tiles"
version = "0.1.0"
edition = "2021"
publish = false

[dependencies]
image = { version = "0.24", default-features = false, features = ["png"] }
log = "0.4"
rouille = "3"
simple_logger = "*"
