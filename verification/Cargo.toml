[package]
name = "wingmesh"
version = "0.1.0"
edition = "2021"
publish = false

[dependencies]
clap = { version = "*", features = ["derive"] }
kurbo = "*"
truck-modeling = "*"
truck-meshalgo = "*"
truck-polymesh = "*"
