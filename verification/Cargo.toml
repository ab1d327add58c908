[package]
name = "image_combiner"
version = "0.1.0"
edition = "2021"

[dependencies]
image = "0.24"
