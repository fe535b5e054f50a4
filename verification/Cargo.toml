[package]
name = "heightmap_gen"
version = "0.1.0"
edition = "2021"
publish = false

[dependencies]
rand = "0.8"
image = "0.24"
noise = "0.8"
dirs = "*"
serde = { version = "1", features = ["derive"] }
serde_json = "1"
