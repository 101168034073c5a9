[package]
name = "combine_images"
version = "0.1.0"
edition = "2021"
publish = false

[dependencies]
image = "0.24"
rand = "0.8"
reqwest = { version = "0.11", default-features = false, features = ["blocking"] }
