[package]
name = "raytracer"
version = "0.1.0"
edition = "2021"
publish = false

[dependencies]
rand = "0.8"
minifb = "*"
threadpool = "1"
png = "*"
clap = { version = "4", features = ["derive"] }
ron = "*"
serde = { version = "1", features = ["derive"] }
typetag = "*"
