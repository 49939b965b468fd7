[package]
name = "window_embedder"
version = "0.1.0"
edition = "2021"
publish = false

[dependencies]
glutin = "0.21.2"
