[package]
name = "fragwatch"
version = "0.1.0"
edition = "2021"
publish = false

[dependencies]
clap = { version = "4", features = ["derive"] }
glium = "0.32"
notify = "6"
